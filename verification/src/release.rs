//! Releases: the firmware versions that a remote offers for a device.

use crate::common::{
    KEY_APPSTREAM_ID, KEY_CATEGORIES, KEY_CHECKSUM, KEY_DESCRIPTION, KEY_DETAILS_URL,
    KEY_FILENAME, KEY_FLAGS, KEY_HOMEPAGE, KEY_INSTALL_DURATION, KEY_LICENSE, KEY_NAME,
    KEY_PROTOCOL, KEY_REMOTE_ID, KEY_SIZE, KEY_SOURCE_URL, KEY_SUMMARY, KEY_TRUST_FLAGS,
    KEY_UPDATE_MESSAGE, KEY_URI, KEY_VENDOR, KEY_VERSION,
};
use crate::dbus_helpers::{
    dbus_split_strs, dbus_str, dbus_strs, dbus_u64, want_nested_texts, want_split_texts,
    want_text, want_u64,
};
use crate::flags::{ReleaseFlags, TrustFlags};
use crate::remote::RemoteId;
use crate::text::{str_eq, text_lt, text_lt_of};
use crate::wire::{
    entries_view, text_of, texts_of, Entry, Mismatch, MismatchModel, WireModel, WireValue,
};
use core::cmp::Ordering;
use vstd::prelude::*;
use vstd::string::*;

verus! {

/// A firmware version that is available for a device.
#[derive(Clone, Debug)]
pub struct Release {
    /// The AppStream identifier of the firmware.
    pub appstream_id: String,
    /// The categories of the release.
    pub categories: Vec<String>,
    /// The checksums of the payload, as hexadecimal digests.
    pub checksums: Vec<String>,
    /// When the release was made, in seconds since the epoch.
    pub created: u64,
    /// The notes of the release.
    pub description: String,
    /// Where to read more.
    pub details_url: Option<String>,
    /// The name of the payload inside its archive.
    pub filename: String,
    /// Attributes of the release.
    pub flags: ReleaseFlags,
    /// The home page of the firmware.
    pub homepage: String,
    /// How long the installation takes, in seconds.
    pub install_duration: u32,
    /// The license of the firmware.
    pub license: String,
    /// The name for people to read.
    pub name: String,
    /// The update protocol.
    pub protocol: Option<String>,
    /// The remote that offers the release.
    pub remote_id: RemoteId,
    /// The size of the payload in bytes.
    pub size: u64,
    /// Where the source can be had.
    pub source_url: Option<String>,
    /// A one-line description.
    pub summary: String,
    /// Which parts of the release are attested.
    pub trust_flags: TrustFlags,
    /// What the update asks of the user.
    pub update_message: Option<String>,
    /// Where the payload can be fetched.
    pub uri: String,
    /// The name of the vendor.
    pub vendor: String,
    /// The version of the firmware.
    pub version: String,
}

/// The mathematical content of a [`Release`].
pub ghost struct ReleaseModel {
    pub appstream_id: Seq<char>,
    pub categories: Seq<Seq<char>>,
    pub checksums: Seq<Seq<char>>,
    pub created: u64,
    pub description: Seq<char>,
    pub details_url: Option<Seq<char>>,
    pub filename: Seq<char>,
    pub flags: ReleaseFlags,
    pub homepage: Seq<char>,
    pub install_duration: u32,
    pub license: Seq<char>,
    pub name: Seq<char>,
    pub protocol: Option<Seq<char>>,
    pub remote_id: Seq<char>,
    pub size: u64,
    pub source_url: Option<Seq<char>>,
    pub summary: Seq<char>,
    pub trust_flags: TrustFlags,
    pub update_message: Option<Seq<char>>,
    pub uri: Seq<char>,
    pub vendor: Seq<char>,
    pub version: Seq<char>,
}

impl View for Release {
    type V = ReleaseModel;

    open spec fn view(&self) -> ReleaseModel {
        ReleaseModel {
            appstream_id: self.appstream_id@,
            categories: texts_of(self.categories@),
            checksums: texts_of(self.checksums@),
            created: self.created,
            description: self.description@,
            details_url: text_of(self.details_url),
            filename: self.filename@,
            flags: self.flags,
            homepage: self.homepage@,
            install_duration: self.install_duration,
            license: self.license@,
            name: self.name@,
            protocol: text_of(self.protocol),
            remote_id: self.remote_id@,
            size: self.size,
            source_url: text_of(self.source_url),
            summary: self.summary@,
            trust_flags: self.trust_flags,
            update_message: text_of(self.update_message),
            uri: self.uri@,
            vendor: self.vendor@,
            version: self.version@,
        }
    }
}

/// The release of which nothing is known yet: what decoding starts from.
pub open spec fn blank_release() -> ReleaseModel {
    ReleaseModel {
        appstream_id: Seq::empty(),
        categories: Seq::empty(),
        checksums: Seq::empty(),
        created: 0,
        description: Seq::empty(),
        details_url: None,
        filename: Seq::empty(),
        flags: ReleaseFlags { bits: 0 },
        homepage: Seq::empty(),
        install_duration: 0,
        license: Seq::empty(),
        name: Seq::empty(),
        protocol: None,
        remote_id: Seq::empty(),
        size: 0,
        source_url: None,
        summary: Seq::empty(),
        trust_flags: TrustFlags { bits: 0 },
        update_message: None,
        uri: Seq::empty(),
        vendor: Seq::empty(),
        version: Seq::empty(),
    }
}

/// The release `known` once the attribute `key` has arrived with `value`. A key
/// that names no attribute leaves the release as it is; a value of the wrong
/// shape is an error.
pub open spec fn release_with(known: ReleaseModel, key: Seq<char>, value: WireModel) -> Result<
    ReleaseModel,
    MismatchModel,
> {
    if key == KEY_APPSTREAM_ID@ {
        match want_text(value, key) {
            Ok(text) => Ok(ReleaseModel { appstream_id: text, ..known }),
            Err(e) => Err(e),
        }
    } else if key == KEY_CATEGORIES@ {
        match want_nested_texts(value, key) {
            Ok(texts) => Ok(ReleaseModel { categories: texts, ..known }),
            Err(e) => Err(e),
        }
    } else if key == KEY_CHECKSUM@ {
        match want_split_texts(value, key) {
            Ok(texts) => Ok(ReleaseModel { checksums: texts, ..known }),
            Err(e) => Err(e),
        }
    } else if key == KEY_DESCRIPTION@ {
        match want_text(value, key) {
            Ok(text) => Ok(ReleaseModel { description: text, ..known }),
            Err(e) => Err(e),
        }
    } else if key == KEY_DETAILS_URL@ {
        match want_text(value, key) {
            Ok(text) => Ok(ReleaseModel { details_url: Some(text), ..known }),
            Err(e) => Err(e),
        }
    } else if key == KEY_FILENAME@ {
        match want_text(value, key) {
            Ok(text) => Ok(ReleaseModel { filename: text, ..known }),
            Err(e) => Err(e),
        }
    } else if key == KEY_FLAGS@ {
        match want_u64(value, key) {
            Ok(number) => Ok(
                ReleaseModel { flags: ReleaseFlags { bits: number & ReleaseFlags::ALL }, ..known },
            ),
            Err(e) => Err(e),
        }
    } else if key == KEY_HOMEPAGE@ {
        match want_text(value, key) {
            Ok(text) => Ok(ReleaseModel { homepage: text, ..known }),
            Err(e) => Err(e),
        }
    } else if key == KEY_INSTALL_DURATION@ {
        match want_u64(value, key) {
            Ok(number) => Ok(ReleaseModel { install_duration: number as u32, ..known }),
            Err(e) => Err(e),
        }
    } else if key == KEY_LICENSE@ {
        match want_text(value, key) {
            Ok(text) => Ok(ReleaseModel { license: text, ..known }),
            Err(e) => Err(e),
        }
    } else if key == KEY_NAME@ {
        match want_text(value, key) {
            Ok(text) => Ok(ReleaseModel { name: text, ..known }),
            Err(e) => Err(e),
        }
    } else if key == KEY_PROTOCOL@ {
        match want_text(value, key) {
            Ok(text) => Ok(ReleaseModel { protocol: Some(text), ..known }),
            Err(e) => Err(e),
        }
    } else if key == KEY_REMOTE_ID@ {
        match want_text(value, key) {
            Ok(text) => Ok(ReleaseModel { remote_id: text, ..known }),
            Err(e) => Err(e),
        }
    } else if key == KEY_SIZE@ {
        match want_u64(value, key) {
            Ok(number) => Ok(ReleaseModel { size: number, ..known }),
            Err(e) => Err(e),
        }
    } else if key == KEY_SOURCE_URL@ {
        match want_text(value, key) {
            Ok(text) => Ok(ReleaseModel { source_url: Some(text), ..known }),
            Err(e) => Err(e),
        }
    } else if key == KEY_SUMMARY@ {
        match want_text(value, key) {
            Ok(text) => Ok(ReleaseModel { summary: text, ..known }),
            Err(e) => Err(e),
        }
    } else if key == KEY_TRUST_FLAGS@ {
        match want_u64(value, key) {
            Ok(number) => Ok(
                ReleaseModel {
                    trust_flags: TrustFlags { bits: number & TrustFlags::ALL },
                    ..known
                },
            ),
            Err(e) => Err(e),
        }
    } else if key == KEY_UPDATE_MESSAGE@ {
        match want_text(value, key) {
            Ok(text) => Ok(ReleaseModel { update_message: Some(text), ..known }),
            Err(e) => Err(e),
        }
    } else if key == KEY_URI@ {
        match want_text(value, key) {
            Ok(text) => Ok(ReleaseModel { uri: text, ..known }),
            Err(e) => Err(e),
        }
    } else if key == KEY_VENDOR@ {
        match want_text(value, key) {
            Ok(text) => Ok(ReleaseModel { vendor: text, ..known }),
            Err(e) => Err(e),
        }
    } else if key == KEY_VERSION@ {
        match want_text(value, key) {
            Ok(text) => Ok(ReleaseModel { version: text, ..known }),
            Err(e) => Err(e),
        }
    } else {
        Ok(known)
    }
}

/// The release that a list of keyed values describes: the attributes are
/// taken in order, so a key that comes twice counts the second time, and the
/// first value of the wrong shape is the error.
pub open spec fn decode_release(entries: Seq<(Seq<char>, WireModel)>) -> Result<
    ReleaseModel,
    MismatchModel,
>
    decreases entries.len(),
{
    if entries.len() == 0 {
        Ok(blank_release())
    } else {
        match decode_release(entries.drop_last()) {
            Ok(known) => release_with(known, entries.last().0, entries.last().1),
            Err(e) => Err(e),
        }
    }
}

impl Default for Release {
    fn default() -> (blank: Release)
        ensures
            blank@ == blank_release(),
    {
        let blank = Release {
            appstream_id: String::new(),
            categories: Vec::new(),
            checksums: Vec::new(),
            created: 0,
            description: String::new(),
            details_url: None,
            filename: String::new(),
            flags: ReleaseFlags { bits: 0 },
            homepage: String::new(),
            install_duration: 0,
            license: String::new(),
            name: String::new(),
            protocol: None,
            remote_id: RemoteId(String::new()),
            size: 0,
            source_url: None,
            summary: String::new(),
            trust_flags: TrustFlags { bits: 0 },
            update_message: None,
            uri: String::new(),
            vendor: String::new(),
            version: String::new(),
        };
        proof {
            assert(texts_of(blank.categories@) =~= Seq::empty());
            assert(texts_of(blank.checksums@) =~= Seq::empty());
        }
        blank
    }
}

impl Release {
    /// Takes in one attribute, see [`release_with`].
    pub fn set(&mut self, key: &str, value: &WireValue) -> (out: Result<(), Mismatch>)
        ensures
            match out {
                Ok(()) => release_with(old(self)@, key@, value@) == Ok::<
                    ReleaseModel,
                    MismatchModel,
                >(final(self)@),
                Err(e) => release_with(old(self)@, key@, value@) == Err::<
                    ReleaseModel,
                    MismatchModel,
                >(e@),
            },
    {
        if str_eq(key, KEY_APPSTREAM_ID) {
            let text = dbus_str(value, key)?;
            self.appstream_id = text.to_owned();
        } else if str_eq(key, KEY_CATEGORIES) {
            let texts = dbus_strs(value, key)?;
            self.categories = texts;
        } else if str_eq(key, KEY_CHECKSUM) {
            let texts = dbus_split_strs(value, key)?;
            self.checksums = texts;
        } else if str_eq(key, KEY_DESCRIPTION) {
            let text = dbus_str(value, key)?;
            self.description = text.to_owned();
        } else if str_eq(key, KEY_DETAILS_URL) {
            let text = dbus_str(value, key)?;
            self.details_url = Some(text.to_owned());
        } else if str_eq(key, KEY_FILENAME) {
            let text = dbus_str(value, key)?;
            self.filename = text.to_owned();
        } else if str_eq(key, KEY_FLAGS) {
            let number = dbus_u64(value, key)?;
            self.flags = ReleaseFlags::from_bits_truncate(number);
        } else if str_eq(key, KEY_HOMEPAGE) {
            let text = dbus_str(value, key)?;
            self.homepage = text.to_owned();
        } else if str_eq(key, KEY_INSTALL_DURATION) {
            let number = dbus_u64(value, key)?;
            self.install_duration = #[verifier::truncate] (number as u32);
        } else if str_eq(key, KEY_LICENSE) {
            let text = dbus_str(value, key)?;
            self.license = text.to_owned();
        } else if str_eq(key, KEY_NAME) {
            let text = dbus_str(value, key)?;
            self.name = text.to_owned();
        } else if str_eq(key, KEY_PROTOCOL) {
            let text = dbus_str(value, key)?;
            self.protocol = Some(text.to_owned());
        } else if str_eq(key, KEY_REMOTE_ID) {
            let text = dbus_str(value, key)?;
            self.remote_id = RemoteId(text.to_owned());
        } else if str_eq(key, KEY_SIZE) {
            let number = dbus_u64(value, key)?;
            self.size = number;
        } else if str_eq(key, KEY_SOURCE_URL) {
            let text = dbus_str(value, key)?;
            self.source_url = Some(text.to_owned());
        } else if str_eq(key, KEY_SUMMARY) {
            let text = dbus_str(value, key)?;
            self.summary = text.to_owned();
        } else if str_eq(key, KEY_TRUST_FLAGS) {
            let number = dbus_u64(value, key)?;
            self.trust_flags = TrustFlags::from_bits_truncate(number);
        } else if str_eq(key, KEY_UPDATE_MESSAGE) {
            let text = dbus_str(value, key)?;
            self.update_message = Some(text.to_owned());
        } else if str_eq(key, KEY_URI) {
            let text = dbus_str(value, key)?;
            self.uri = text.to_owned();
        } else if str_eq(key, KEY_VENDOR) {
            let text = dbus_str(value, key)?;
            self.vendor = text.to_owned();
        } else if str_eq(key, KEY_VERSION) {
            let text = dbus_str(value, key)?;
            self.version = text.to_owned();
        }
        Ok(())
    }

    /// Decodes a release from the keyed values of a reply, see
    /// [`decode_release`].
    pub fn from_entries(entries: &[Entry]) -> (out: Result<Release, Mismatch>)
        ensures
            match out {
                Ok(release) => decode_release(entries_view(entries@)) == Ok::<
                    ReleaseModel,
                    MismatchModel,
                >(release@),
                Err(e) => decode_release(entries_view(entries@)) == Err::<
                    ReleaseModel,
                    MismatchModel,
                >(e@),
            },
    {
        let ghost all = entries_view(entries@);
        let mut release = Release::default();
        let mut i: usize = 0;
        assert(all.take(0) =~= Seq::empty());
        while i < entries.len()
            invariant
                i <= entries.len(),
                all == entries_view(entries@),
                decode_release(all.take(i as int)) == Ok::<ReleaseModel, MismatchModel>(release@),
            decreases entries.len() - i,
        {
            proof {
                assert(all.take(i + 1).drop_last() =~= all.take(i as int));
                assert(all.take(i + 1).last() == (entries@[i as int].0@, entries@[i as int].1@));
            }
            match release.set(entries[i].0.as_str(), &entries[i].1) {
                Ok(()) => {},
                Err(e) => {
                    proof {
                        lemma_decode_release_stops(all, i + 1);
                    }
                    return Err(e);
                },
            }
            i += 1;
        }
        assert(all.take(entries.len() as int) =~= all);
        Ok(release)
    }
}

/// Once a list of keyed values has failed to decode, what follows it
/// changes nothing.
pub proof fn lemma_decode_release_stops(entries: Seq<(Seq<char>, WireModel)>, n: int)
    requires
        0 <= n <= entries.len(),
        decode_release(entries.take(n)).is_err(),
    ensures
        decode_release(entries) == decode_release(entries.take(n)),
    decreases entries.len(),
{
    if n < entries.len() {
        assert(entries.drop_last().take(n) =~= entries.take(n));
        lemma_decode_release_stops(entries.drop_last(), n);
    } else {
        assert(entries.take(n) =~= entries);
    }
}

impl PartialEq for Release {
    /// Releases are equal where their versions are.
    fn eq(&self, other: &Release) -> (same: bool) {
        str_eq(self.version.as_str(), other.version.as_str())
    }
}

impl vstd::std_specs::cmp::PartialEqSpecImpl for Release {
    open spec fn obeys_eq_spec() -> bool {
        true
    }

    open spec fn eq_spec(&self, other: &Release) -> bool {
        self.version@ == other.version@
    }
}

impl Eq for Release {}

impl PartialOrd for Release {
    /// Releases are ordered by their versions, as strings: callers that
    /// want the order of version numbers bring the versions into a form in
    /// which the two agree.
    fn partial_cmp(&self, other: &Release) -> (order: Option<Ordering>) {
        if str_eq(self.version.as_str(), other.version.as_str()) {
            Some(Ordering::Equal)
        } else if text_lt(self.version.as_str(), other.version.as_str()) {
            Some(Ordering::Less)
        } else {
            Some(Ordering::Greater)
        }
    }
}

impl vstd::std_specs::cmp::PartialOrdSpecImpl for Release {
    open spec fn obeys_partial_cmp_spec() -> bool {
        true
    }

    open spec fn partial_cmp_spec(&self, other: &Release) -> Option<Ordering> {
        if self.version@ == other.version@ {
            Some(Ordering::Equal)
        } else if text_lt_of(self.version@, other.version@) {
            Some(Ordering::Less)
        } else {
            Some(Ordering::Greater)
        }
    }
}

impl AsRef<RemoteId> for Release {
    fn as_ref(&self) -> (id: &RemoteId)
        ensures
            *id == self.remote_id,
    {
        &self.remote_id
    }
}

} // verus!
