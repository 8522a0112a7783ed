//! Remotes: the configured sources of firmware metadata and payloads.

use crate::common::{KEY_CHECKSUM, KEY_REMOTE_ID, KEY_URI};
use crate::dbus_helpers::{
    dbus_first_i64, dbus_str, dbus_u64, want_first_i64, want_text, want_u64,
};
use crate::text::{
    basename, basename_of, dirname, dirname_of, has_slash, join, join_of, skip_chars, str_eq,
    strip_final_slash, without_final_slash,
};
use crate::wire::{
    entries_view, text_of, Entry, Mismatch, MismatchModel, WireModel, WireValue,
};
use vstd::prelude::*;
use vstd::string::*;

verus! {

/// The kind of signature that a remote signs its metadata with.
#[derive(Clone, Copy, Debug, PartialEq, Eq, Structural)]
pub enum KeyringKind {
    Unknown,
    NoKeyring,
    GPG,
    PKCS7,
    JCAT,
}

impl KeyringKind {
    /// The value that the daemon writes as `code`; a code that it does not
    /// use reads as `Unknown`.
    pub open spec fn of_code(code: u8) -> KeyringKind {
        if code == 0 {
            KeyringKind::Unknown
        } else if code == 1 {
            KeyringKind::NoKeyring
        } else if code == 2 {
            KeyringKind::GPG
        } else if code == 3 {
            KeyringKind::PKCS7
        } else if code == 4 {
            KeyringKind::JCAT
        } else {
            KeyringKind::Unknown
        }
    }
}

impl From<u8> for KeyringKind {
    fn from(value: u8) -> (out: KeyringKind) {
        match value {
            0 => KeyringKind::Unknown,
            1 => KeyringKind::NoKeyring,
            2 => KeyringKind::GPG,
            3 => KeyringKind::PKCS7,
            4 => KeyringKind::JCAT,
            _ => KeyringKind::Unknown,
        }
    }
}

impl vstd::std_specs::convert::FromSpecImpl<u8> for KeyringKind {
    open spec fn obeys_from_spec() -> bool {
        true
    }

    open spec fn from_spec(value: u8) -> KeyringKind {
        KeyringKind::of_code(value)
    }
}

impl Default for KeyringKind {
    fn default() -> (kind: KeyringKind)
        ensures
            kind == KeyringKind::NoKeyring,
    {
        KeyringKind::NoKeyring
    }
}

/// Where a remote keeps what it offers.
#[derive(Clone, Copy, Debug, PartialEq, Eq, Structural)]
pub enum RemoteKind {
    Unknown,
    Download,
    Local,
    Directory,
}

impl RemoteKind {
    /// The value that the daemon writes as `code`; a code that it does not
    /// use reads as `Unknown`.
    pub open spec fn of_code(code: u8) -> RemoteKind {
        if code == 0 {
            RemoteKind::Unknown
        } else if code == 1 {
            RemoteKind::Download
        } else if code == 2 {
            RemoteKind::Local
        } else if code == 3 {
            RemoteKind::Directory
        } else {
            RemoteKind::Unknown
        }
    }
}

impl From<u8> for RemoteKind {
    fn from(value: u8) -> (out: RemoteKind) {
        match value {
            0 => RemoteKind::Unknown,
            1 => RemoteKind::Download,
            2 => RemoteKind::Local,
            3 => RemoteKind::Directory,
            _ => RemoteKind::Unknown,
        }
    }
}

impl vstd::std_specs::convert::FromSpecImpl<u8> for RemoteKind {
    open spec fn obeys_from_spec() -> bool {
        true
    }

    open spec fn from_spec(value: u8) -> RemoteKind {
        RemoteKind::of_code(value)
    }
}

impl Default for RemoteKind {
    fn default() -> (kind: RemoteKind)
        ensures
            kind == RemoteKind::Unknown,
    {
        RemoteKind::Unknown
    }
}

/// The identifier of a remote.
#[derive(Clone, Debug, Default, PartialEq, Eq)]
pub struct RemoteId(pub String);

impl View for RemoteId {
    type V = Seq<char>;

    open spec fn view(&self) -> Seq<char> {
        self.0@
    }
}

/// A source of firmware, as the daemon is configured with it.
#[derive(Clone, Debug)]
pub struct Remote {
    /// The agreement that the user accepts by enabling the remote.
    pub agreement: Option<String>,
    /// Whether firmware from the remote waits for approval.
    pub approval_required: bool,
    /// The checksum of the metadata as last known.
    pub checksum: Option<String>,
    /// Whether the remote is in use. Nothing is fetched from one that is not.
    pub enabled: bool,
    /// Where the daemon keeps the metadata.
    pub filename_cache: String,
    /// The file that configures the remote.
    pub filename_source: String,
    /// Where the payloads are hosted, if not where the release says.
    pub firmware_base_uri: Option<String>,
    /// The kind of signature on the metadata.
    pub keyring: KeyringKind,
    /// Where the remote keeps what it offers.
    pub kind: RemoteKind,
    /// When the metadata was last changed, in seconds since the epoch.
    pub modification_time: u64,
    /// The password to fetch with.
    pub password: Option<String>,
    /// The rank of the remote among the others.
    pub priority: i16,
    /// The identifier.
    pub remote_id: RemoteId,
    /// Where reports are sent.
    pub report_uri: Option<String>,
    /// The name for people to read.
    pub title: String,
    /// Where the metadata can be fetched.
    pub uri: Option<String>,
    /// The user name to fetch with.
    pub username: Option<String>,
}

/// The mathematical content of a [`Remote`].
pub ghost struct RemoteModel {
    pub agreement: Option<Seq<char>>,
    pub approval_required: bool,
    pub checksum: Option<Seq<char>>,
    pub enabled: bool,
    pub filename_cache: Seq<char>,
    pub filename_source: Seq<char>,
    pub firmware_base_uri: Option<Seq<char>>,
    pub keyring: KeyringKind,
    pub kind: RemoteKind,
    pub modification_time: u64,
    pub password: Option<Seq<char>>,
    pub priority: i16,
    pub remote_id: Seq<char>,
    pub report_uri: Option<Seq<char>>,
    pub title: Seq<char>,
    pub uri: Option<Seq<char>>,
    pub username: Option<Seq<char>>,
}

impl View for Remote {
    type V = RemoteModel;

    open spec fn view(&self) -> RemoteModel {
        RemoteModel {
            agreement: text_of(self.agreement),
            approval_required: self.approval_required,
            checksum: text_of(self.checksum),
            enabled: self.enabled,
            filename_cache: self.filename_cache@,
            filename_source: self.filename_source@,
            firmware_base_uri: text_of(self.firmware_base_uri),
            keyring: self.keyring,
            kind: self.kind,
            modification_time: self.modification_time,
            password: text_of(self.password),
            priority: self.priority,
            remote_id: self.remote_id@,
            report_uri: text_of(self.report_uri),
            title: self.title@,
            uri: text_of(self.uri),
            username: text_of(self.username),
        }
    }
}

/// The remote of which nothing is known yet: what decoding starts from.
pub open spec fn blank_remote() -> RemoteModel {
    RemoteModel {
        agreement: None,
        approval_required: false,
        checksum: None,
        enabled: false,
        filename_cache: Seq::empty(),
        filename_source: Seq::empty(),
        firmware_base_uri: None,
        keyring: KeyringKind::NoKeyring,
        kind: RemoteKind::Unknown,
        modification_time: 0,
        password: None,
        priority: 0,
        remote_id: Seq::empty(),
        report_uri: None,
        title: Seq::empty(),
        uri: None,
        username: None,
    }
}

/// The remote `known` once the attribute `key` has arrived with `value`. A key
/// that names no attribute leaves the remote as it is; a value of the wrong
/// shape is an error.
pub open spec fn remote_with(known: RemoteModel, key: Seq<char>, value: WireModel) -> Result<
    RemoteModel,
    MismatchModel,
> {
    if key == "Agreement"@ {
        match want_text(value, key) {
            Ok(text) => Ok(RemoteModel { agreement: Some(text), ..known }),
            Err(e) => Err(e),
        }
    } else if key == "ApprovalRequired"@ {
        match want_u64(value, key) {
            Ok(number) => Ok(RemoteModel { approval_required: number != 0, ..known }),
            Err(e) => Err(e),
        }
    } else if key == KEY_CHECKSUM@ {
        match want_text(value, key) {
            Ok(text) => Ok(RemoteModel { checksum: Some(text), ..known }),
            Err(e) => Err(e),
        }
    } else if key == "Enabled"@ {
        match want_u64(value, key) {
            Ok(number) => Ok(RemoteModel { enabled: number != 0, ..known }),
            Err(e) => Err(e),
        }
    } else if key == "FilenameCache"@ {
        match want_text(value, key) {
            Ok(text) => Ok(RemoteModel { filename_cache: text, ..known }),
            Err(e) => Err(e),
        }
    } else if key == "FilenameSource"@ {
        match want_text(value, key) {
            Ok(text) => Ok(RemoteModel { filename_source: text, ..known }),
            Err(e) => Err(e),
        }
    } else if key == "FirmwareBaseUri"@ {
        match want_text(value, key) {
            Ok(text) => Ok(RemoteModel { firmware_base_uri: Some(text), ..known }),
            Err(e) => Err(e),
        }
    } else if key == "Keyring"@ {
        match want_u64(value, key) {
            Ok(number) => Ok(RemoteModel { keyring: KeyringKind::of_code(number as u8), ..known }),
            Err(e) => Err(e),
        }
    } else if key == "Type"@ {
        match want_u64(value, key) {
            Ok(number) => Ok(RemoteModel { kind: RemoteKind::of_code(number as u8), ..known }),
            Err(e) => Err(e),
        }
    } else if key == "ModificationTime"@ {
        match want_u64(value, key) {
            Ok(number) => Ok(RemoteModel { modification_time: number, ..known }),
            Err(e) => Err(e),
        }
    } else if key == "Password"@ {
        match want_text(value, key) {
            Ok(text) => Ok(RemoteModel { password: Some(text), ..known }),
            Err(e) => Err(e),
        }
    } else if key == "Priority"@ {
        match want_first_i64(value, key) {
            Ok(number) => Ok(RemoteModel { priority: number as i16, ..known }),
            Err(e) => Err(e),
        }
    } else if key == KEY_REMOTE_ID@ {
        match want_text(value, key) {
            Ok(text) => Ok(RemoteModel { remote_id: text, ..known }),
            Err(e) => Err(e),
        }
    } else if key == "ReportUri"@ {
        match want_text(value, key) {
            Ok(text) => Ok(RemoteModel { report_uri: Some(text), ..known }),
            Err(e) => Err(e),
        }
    } else if key == "Title"@ {
        match want_text(value, key) {
            Ok(text) => Ok(RemoteModel { title: text, ..known }),
            Err(e) => Err(e),
        }
    } else if key == KEY_URI@ {
        match want_text(value, key) {
            Ok(text) => Ok(RemoteModel { uri: Some(text), ..known }),
            Err(e) => Err(e),
        }
    } else if key == "Username"@ {
        match want_text(value, key) {
            Ok(text) => Ok(RemoteModel { username: Some(text), ..known }),
            Err(e) => Err(e),
        }
    } else {
        Ok(known)
    }
}

/// The remote that a list of keyed values describes: the attributes are
/// taken in order, so a key that comes twice counts the second time, and the
/// first value of the wrong shape is the error.
pub open spec fn decode_remote(entries: Seq<(Seq<char>, WireModel)>) -> Result<
    RemoteModel,
    MismatchModel,
>
    decreases entries.len(),
{
    if entries.len() == 0 {
        Ok(blank_remote())
    } else {
        match decode_remote(entries.drop_last()) {
            Ok(known) => remote_with(known, entries.last().0, entries.last().1),
            Err(e) => Err(e),
        }
    }
}

impl Default for Remote {
    fn default() -> (blank: Remote)
        ensures
            blank@ == blank_remote(),
    {
        let blank = Remote {
            agreement: None,
            approval_required: false,
            checksum: None,
            enabled: false,
            filename_cache: String::new(),
            filename_source: String::new(),
            firmware_base_uri: None,
            keyring: KeyringKind::NoKeyring,
            kind: RemoteKind::Unknown,
            modification_time: 0,
            password: None,
            priority: 0,
            remote_id: RemoteId(String::new()),
            report_uri: None,
            title: String::new(),
            uri: None,
            username: None,
        };
        blank
    }
}

impl Remote {
    /// Takes in one attribute, see [`remote_with`].
    pub fn set(&mut self, key: &str, value: &WireValue) -> (out: Result<(), Mismatch>)
        ensures
            match out {
                Ok(()) => remote_with(old(self)@, key@, value@) == Ok::<RemoteModel, MismatchModel>(
                    final(self)@,
                ),
                Err(e) => remote_with(old(self)@, key@, value@) == Err::<
                    RemoteModel,
                    MismatchModel,
                >(e@),
            },
    {
        if str_eq(key, "Agreement") {
            let text = dbus_str(value, key)?;
            self.agreement = Some(text.to_owned());
        } else if str_eq(key, "ApprovalRequired") {
            let number = dbus_u64(value, key)?;
            self.approval_required = number != 0;
        } else if str_eq(key, KEY_CHECKSUM) {
            let text = dbus_str(value, key)?;
            self.checksum = Some(text.to_owned());
        } else if str_eq(key, "Enabled") {
            let number = dbus_u64(value, key)?;
            self.enabled = number != 0;
        } else if str_eq(key, "FilenameCache") {
            let text = dbus_str(value, key)?;
            self.filename_cache = text.to_owned();
        } else if str_eq(key, "FilenameSource") {
            let text = dbus_str(value, key)?;
            self.filename_source = text.to_owned();
        } else if str_eq(key, "FirmwareBaseUri") {
            let text = dbus_str(value, key)?;
            self.firmware_base_uri = Some(text.to_owned());
        } else if str_eq(key, "Keyring") {
            let number = dbus_u64(value, key)?;
            self.keyring = KeyringKind::from(#[verifier::truncate] (number as u8));
        } else if str_eq(key, "Type") {
            let number = dbus_u64(value, key)?;
            self.kind = RemoteKind::from(#[verifier::truncate] (number as u8));
        } else if str_eq(key, "ModificationTime") {
            let number = dbus_u64(value, key)?;
            self.modification_time = number;
        } else if str_eq(key, "Password") {
            let text = dbus_str(value, key)?;
            self.password = Some(text.to_owned());
        } else if str_eq(key, "Priority") {
            let number = dbus_first_i64(value, key)?;
            self.priority = #[verifier::truncate] (number as i16);
        } else if str_eq(key, KEY_REMOTE_ID) {
            let text = dbus_str(value, key)?;
            self.remote_id = RemoteId(text.to_owned());
        } else if str_eq(key, "ReportUri") {
            let text = dbus_str(value, key)?;
            self.report_uri = Some(text.to_owned());
        } else if str_eq(key, "Title") {
            let text = dbus_str(value, key)?;
            self.title = text.to_owned();
        } else if str_eq(key, KEY_URI) {
            let text = dbus_str(value, key)?;
            self.uri = Some(text.to_owned());
        } else if str_eq(key, "Username") {
            let text = dbus_str(value, key)?;
            self.username = Some(text.to_owned());
        }
        Ok(())
    }

    /// Decodes a remote from the keyed values of a reply, see
    /// [`decode_remote`].
    pub fn from_entries(entries: &[Entry]) -> (out: Result<Remote, Mismatch>)
        ensures
            match out {
                Ok(remote) => decode_remote(entries_view(entries@)) == Ok::<
                    RemoteModel,
                    MismatchModel,
                >(remote@),
                Err(e) => decode_remote(entries_view(entries@)) == Err::<
                    RemoteModel,
                    MismatchModel,
                >(e@),
            },
    {
        let ghost all = entries_view(entries@);
        let mut remote = Remote::default();
        let mut i: usize = 0;
        assert(all.take(0) =~= Seq::empty());
        while i < entries.len()
            invariant
                i <= entries.len(),
                all == entries_view(entries@),
                decode_remote(all.take(i as int)) == Ok::<RemoteModel, MismatchModel>(remote@),
            decreases entries.len() - i,
        {
            proof {
                assert(all.take(i + 1).drop_last() =~= all.take(i as int));
                assert(all.take(i + 1).last() == (entries@[i as int].0@, entries@[i as int].1@));
            }
            match remote.set(entries[i].0.as_str(), &entries[i].1) {
                Ok(()) => {},
                Err(e) => {
                    proof {
                        lemma_decode_remote_stops(all, i + 1);
                    }
                    return Err(e);
                },
            }
            i += 1;
        }
        assert(all.take(entries.len() as int) =~= all);
        Ok(remote)
    }
}

/// Once a list of keyed values has failed to decode, what follows it
/// changes nothing.
pub proof fn lemma_decode_remote_stops(entries: Seq<(Seq<char>, WireModel)>, n: int)
    requires
        0 <= n <= entries.len(),
        decode_remote(entries.take(n)).is_err(),
    ensures
        decode_remote(entries) == decode_remote(entries.take(n)),
    decreases entries.len(),
{
    if n < entries.len() {
        assert(entries.drop_last().take(n) =~= entries.take(n));
        lemma_decode_remote_stops(entries.drop_last(), n);
    } else {
        assert(entries.take(n) =~= entries);
    }
}

/// The extension of the signature file that goes with metadata signed for
/// `keyring`.
pub open spec fn signature_extension_of(keyring: KeyringKind) -> Seq<char> {
    match keyring {
        KeyringKind::JCAT => ".jcat"@,
        KeyringKind::PKCS7 => ".p7b"@,
        _ => ".asc"@,
    }
}

impl KeyringKind {
    /// The extension of the signature file that goes with the metadata.
    pub fn signature_extension(self) -> (extension: &'static str)
        ensures
            extension@ == signature_extension_of(self),
    {
        match self {
            KeyringKind::JCAT => ".jcat",
            KeyringKind::PKCS7 => ".p7b",
            _ => ".asc",
        }
    }
}

/// Where a payload is to be had.
#[derive(Clone, Debug)]
pub enum Location {
    /// A file on this machine.
    Path(String),
    /// An absolute URI, in its normal form.
    Uri(String),
}

/// The mathematical content of a [`Location`].
pub ghost enum LocationModel {
    Path(Seq<char>),
    Uri(Seq<char>),
}

impl View for Location {
    type V = LocationModel;

    open spec fn view(&self) -> LocationModel {
        match self {
            Location::Path(path) => LocationModel::Path(path@),
            Location::Uri(uri) => LocationModel::Uri(uri@),
        }
    }
}

/// The normal form of `text` read as an absolute URL, or `None` where `text`
/// is no absolute URL.
pub uninterp spec fn parsed_uri(text: Seq<char>) -> Option<Seq<char>>;

/// Calls `url::Url::parse` and, where it succeeds, writes the URL out again.
/// The contract gives the outcome a name, [`parsed_uri`], and claims only that
/// it depends on the text alone.
#[verifier::external_body]
fn parse_uri(text: &str) -> (out: Option<String>)
    ensures
        text_of(out) == parsed_uri(text@),
{
    match url::Url::parse(text) {
        Ok(uri) => Some(String::from(uri)),
        Err(_) => None,
    }
}

/// The text from which the URI of a payload is parsed. A remote that names a
/// base for its payloads serves every payload from there, under the last
/// segment of the reference. Otherwise a reference without `/` names a file
/// beside the metadata, and any other reference is taken as it is. There is
/// no such text where the reference has no last segment, or the remote no
/// metadata URI with a directory part, when one is called for.
pub open spec fn firmware_reference_of(remote: RemoteModel, reference: Seq<char>) -> Option<
    Seq<char>,
> {
    match remote.firmware_base_uri {
        Some(base) => match basename_of(reference) {
            Some(name) => Some(without_final_slash(base) + seq!['/'] + name),
            None => None,
        },
        None => if !reference.contains('/') {
            match remote.uri {
                Some(uri) => match dirname_of(uri) {
                    Some(dir) => Some(without_final_slash(dir) + seq!['/'] + reference),
                    None => None,
                },
                None => None,
            }
        } else {
            Some(reference)
        },
    }
}

/// The URI of a payload of a remote that is fetched over the network, or
/// `None` where the remote and the reference yield no absolute URI.
pub open spec fn firmware_uri_of(remote: RemoteModel, reference: Seq<char>) -> Option<Seq<char>> {
    match firmware_reference_of(remote, reference) {
        Some(text) => parsed_uri(text),
        None => None,
    }
}

/// Where the payload of a release is to be had. For a local remote it lies
/// beside the remote's metadata; for a directory remote the reference is a
/// path behind a scheme prefix of seven `char`s; for any other remote it is
/// fetched from its URI. `None` where the remote lacks what its kind calls
/// for.
pub open spec fn location_of(remote: RemoteModel, reference: Seq<char>) -> Option<LocationModel> {
    match remote.kind {
        RemoteKind::Local => match dirname_of(remote.filename_cache) {
            Some(dir) => Some(LocationModel::Path(join_of(dir, reference))),
            None => None,
        },
        RemoteKind::Directory => if reference.len() >= 7 {
            Some(LocationModel::Path(reference.skip(7)))
        } else {
            None
        },
        _ => match firmware_uri_of(remote, reference) {
            Some(uri) => Some(LocationModel::Uri(uri)),
            None => None,
        },
    }
}

/// The place of a file of a remote below the cache root: the remote's
/// identifier, then the last segment of `file`.
pub open spec fn local_cache_of(remote: RemoteModel, file: Seq<char>) -> Option<Seq<char>> {
    match basename_of(file) {
        Some(name) => Some(join_of(remote.remote_id, name)),
        None => None,
    }
}

/// A text that ends in neither `/` nor `.` has a last segment.
pub proof fn lemma_basename_of_plain_end(s: Seq<char>)
    requires
        s.len() > 0,
        s.last() != '/',
        s.last() != '.',
    ensures
        basename_of(s).is_some(),
{
    crate::text::lemma_last_slash_bounds(s);
    let tail = s.subrange(crate::text::last_slash(s) + 1, s.len() as int);
    if tail == seq!['.', '.'] {
        assert(tail.len() == 2);
        assert(tail[1] == '.');
        assert(tail[1] == s.last());
    }
}

impl Remote {
    /// The place of `file` below the cache root, see [`local_cache_of`].
    pub fn local_cache(&self, file: &str) -> (path: String)
        requires
            basename_of(file@).is_some(),
        ensures
            Some(path@) == local_cache_of(self@, file@),
    {
        let name = basename(file);
        join(self.remote_id.0.as_str(), name.unwrap().as_str())
    }

    /// The text from which the URI of a payload is parsed, see
    /// [`firmware_reference_of`].
    pub fn firmware_reference(&self, url: &str) -> (text: Option<String>)
        ensures
            text_of(text) == firmware_reference_of(self@, url@),
    {
        proof {
            reveal_strlit("/");
            assert("/"@ =~= seq!['/']);
        }
        match &self.firmware_base_uri {
            Some(base) => match basename(url) {
                Some(name) => {
                    let mut text = strip_final_slash(base.as_str());
                    text.append("/");
                    text.append(name.as_str());
                    Some(text)
                },
                None => None,
            },
            None => if !has_slash(url) {
                match &self.uri {
                    Some(uri) => match dirname(uri.as_str()) {
                        Some(dir) => {
                            let mut text = strip_final_slash(dir.as_str());
                            text.append("/");
                            text.append(url);
                            Some(text)
                        },
                        None => None,
                    },
                    None => None,
                }
            } else {
                Some(url.to_owned())
            },
        }
    }

    /// The URI from which a payload of this remote is fetched, in its normal
    /// form. The remote and the reference must yield an absolute URI;
    /// [`Remote::try_firmware_uri`] finds out whether they do.
    pub fn firmware_uri(&self, url: &str) -> (uri: String)
        requires
            firmware_uri_of(self@, url@).is_some(),
        ensures
            Some(uri@) == firmware_uri_of(self@, url@),
    {
        let text = self.firmware_reference(url);
        parse_uri(text.unwrap().as_str()).unwrap()
    }

    /// The URI from which a payload of this remote is fetched, or `None`
    /// where the remote and the reference yield no absolute URI.
    pub fn try_firmware_uri(&self, url: &str) -> (uri: Option<String>)
        ensures
            text_of(uri) == firmware_uri_of(self@, url@),
    {
        match self.firmware_reference(url) {
            Some(text) => match parse_uri(text.as_str()) {
                Some(_) => Some(self.firmware_uri(url)),
                None => None,
            },
            None => None,
        }
    }

    /// Where the payload of a release of this remote is to be had, see
    /// [`location_of`]. The remote must hold what its kind calls for;
    /// [`Remote::try_firmware_location`] finds out whether it does.
    pub fn firmware_location(&self, reference: &str) -> (location: Location)
        requires
            location_of(self@, reference@).is_some(),
        ensures
            Some(location@) == location_of(self@, reference@),
    {
        match self.kind {
            RemoteKind::Local => {
                let dir = dirname(self.filename_cache.as_str());
                Location::Path(join(dir.unwrap().as_str(), reference))
            },
            RemoteKind::Directory => Location::Path(skip_chars(reference, 7)),
            _ => Location::Uri(self.firmware_uri(reference)),
        }
    }

    /// Where the payload of a release of this remote is to be had, or `None`
    /// where the remote lacks what its kind calls for.
    pub fn try_firmware_location(&self, reference: &str) -> (location: Option<Location>)
        ensures
            match location {
                Some(found) => location_of(self@, reference@) == Some(found@),
                None => location_of(self@, reference@).is_none(),
            },
    {
        let resolvable = match self.kind {
            RemoteKind::Local => dirname(self.filename_cache.as_str()).is_some(),
            RemoteKind::Directory => reference.unicode_len() >= 7,
            _ => self.try_firmware_uri(reference).is_some(),
        };
        if resolvable {
            Some(self.firmware_location(reference))
        } else {
            None
        }
    }
}

impl AsRef<RemoteId> for Remote {
    fn as_ref(&self) -> (id: &RemoteId)
        ensures
            *id == self.remote_id,
    {
        &self.remote_id
    }
}

} // verus!
