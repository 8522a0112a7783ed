//! Fetching the firmware of a release: where it comes from, whether a cached
//! copy can be trusted, and what to do at every turn of a download.
//!
//! The caller performs each [`FetchStep`] and reports what came of it as a
//! [`FetchEvent`]; [`step`] answers with the state reached, the next step and
//! what the listener of progress is to be told. A file that was downloaded is
//! either verified and handed over, or removed: no step leaves an unverified
//! file at the cache path.

use crate::common::{
    best_checksum_of, checksum_matches, find_best_checksum, validate_checksum, DigestKind,
};
use crate::release::{Release, ReleaseModel};
use crate::remote::{
    local_cache_of, location_of, Location, LocationModel, Remote, RemoteModel,
};
use crate::text::basename_of;
use crate::wire::text_of;
use crate::{Error, FlashEvent};
use vstd::prelude::*;
use vstd::string::*;
use vstd::utf8::*;

verus! {

/// The base64 text of `bytes`, in the standard alphabet and with padding.
pub uninterp spec fn base64_of(bytes: Seq<u8>) -> Seq<char>;

/// Calls `base64::encode_config` with `base64::STANDARD`. The contract gives
/// the text it returns a name, [`base64_of`], and claims only that it depends
/// on the bytes alone.
#[verifier::external_body]
fn base64_standard(bytes: &[u8]) -> (text: String)
    ensures
        text@ == base64_of(bytes@),
{
    base64::encode_config(bytes, base64::STANDARD)
}

/// The credentials of HTTP basic authentication: the user name, a colon, and
/// the password where there is one.
pub open spec fn credentials_of(username: Seq<char>, password: Option<Seq<char>>) -> Seq<char> {
    match password {
        Some(secret) => username + seq![':'] + secret,
        None => username + seq![':'],
    }
}

/// The value of the `Authorization` header for the given credentials.
pub open spec fn basic_authorization_of(
    username: Seq<char>,
    password: Option<Seq<char>>,
) -> Seq<char> {
    "Basic "@ + base64_of(encode_utf8(credentials_of(username, password)))
}

/// Puts an `Authorization` header together from credentials that are
/// already encoded.
pub fn authorization_header(encoded: &str) -> (header: String)
    ensures
        header@ == "Basic "@ + encoded@,
{
    let mut header = "Basic ".to_owned();
    header.append(encoded);
    header
}

/// The value of the `Authorization` header with which a payload is asked
/// for.
pub fn basic_authorization(username: &str, password: Option<&str>) -> (header: String)
    ensures
        header@ == basic_authorization_of(
            username@,
            match password {
                Some(secret) => Some(secret@),
                None => None,
            },
        ),
{
    proof {
        reveal_strlit(":");
        assert(":"@ =~= seq![':']);
    }
    let mut credentials = username.to_owned();
    credentials.append(":");
    match password {
        Some(secret) => {
            credentials.append(secret);
        },
        None => {},
    }
    let encoded = base64_standard(credentials.as_str().as_bytes());
    authorization_header(encoded.as_str())
}

/// All that a download needs to know.
#[derive(Clone, Debug)]
pub struct FetchPlan {
    /// The URI to fetch from.
    pub uri: String,
    /// The place of the cached payload below the cache root.
    pub path: String,
    /// The value of the `Authorization` header, where the remote asks for
    /// credentials.
    pub authorization: Option<String>,
    /// The checksum that the payload must have.
    pub checksum: String,
    /// The digest that the checksum stands for.
    pub kind: DigestKind,
    /// The size that the release announces, in bytes.
    pub size: u64,
}

/// The mathematical content of a [`FetchPlan`].
pub ghost struct FetchPlanModel {
    pub uri: Seq<char>,
    pub path: Seq<char>,
    pub authorization: Option<Seq<char>>,
    pub checksum: Seq<char>,
    pub kind: DigestKind,
    pub size: u64,
}

impl View for FetchPlan {
    type V = FetchPlanModel;

    open spec fn view(&self) -> FetchPlanModel {
        FetchPlanModel {
            uri: self.uri@,
            path: self.path@,
            authorization: text_of(self.authorization),
            checksum: self.checksum@,
            kind: self.kind,
            size: self.size,
        }
    }
}

/// How the firmware of a release is come by.
#[derive(Clone, Debug)]
pub enum Source {
    /// It lies on this machine already, at this path. It is neither cached
    /// nor verified.
    Local(String),
    /// It is fetched, unless the cache holds it.
    Remote(FetchPlan),
}

/// The mathematical content of a [`Source`].
pub ghost enum SourceModel {
    Local(Seq<char>),
    Remote(FetchPlanModel),
}

impl View for Source {
    type V = SourceModel;

    open spec fn view(&self) -> SourceModel {
        match self {
            Source::Local(path) => SourceModel::Local(path@),
            Source::Remote(plan) => SourceModel::Remote(plan@),
        }
    }
}

/// The header to ask a remote with: none where the remote has no user name.
pub open spec fn authorization_of(remote: RemoteModel) -> Option<Seq<char>> {
    match remote.username {
        Some(username) => Some(basic_authorization_of(username, remote.password)),
        None => None,
    }
}

/// How the firmware of `release` is come by, once it is known where it is.
/// A release none of whose checksums has the length of a SHA-512, SHA-256 or
/// SHA-1 digest is not fetched: it has nothing to be verified against.
pub open spec fn source_of(
    remote: RemoteModel,
    release: ReleaseModel,
    location: LocationModel,
) -> Result<SourceModel, Error> {
    match location {
        LocationModel::Path(path) => Ok(SourceModel::Local(path)),
        LocationModel::Uri(uri) => match best_checksum_of(release.checksums) {
            Some((at, kind)) => Ok(
                SourceModel::Remote(
                    FetchPlanModel {
                        uri,
                        path: local_cache_of(remote, uri).unwrap(),
                        authorization: authorization_of(remote),
                        checksum: release.checksums[at],
                        kind,
                        size: release.size,
                    },
                ),
            ),
            None => Err(Error::ReleaseWithoutChecksums),
        },
    }
}

/// True where a payload at `location` has a place in the cache.
pub open spec fn cacheable(location: LocationModel) -> bool {
    match location {
        LocationModel::Path(_) => true,
        LocationModel::Uri(uri) => basename_of(uri).is_some(),
    }
}

/// Decides how the firmware of `release` is come by, see [`source_of`]. The
/// location is that of the release's payload at its remote, and a URI must
/// have a last segment to name the cached file by.
pub fn plan_fetch(remote: &Remote, release: &Release, location: Location) -> (out: Result<
    Source,
    Error,
>)
    requires
        cacheable(location@),
    ensures
        match out {
            Ok(source) => source_of(remote@, release@, location@) == Ok::<SourceModel, Error>(
                source@,
            ),
            Err(error) => source_of(remote@, release@, location@) == Err::<SourceModel, Error>(
                error,
            ),
        },
{
    match location {
        Location::Path(path) => Ok(Source::Local(path)),
        Location::Uri(uri) => {
            let path = remote.local_cache(uri.as_str());
            let authorization = match &remote.username {
                Some(username) => Some(
                    basic_authorization(
                        username.as_str(),
                        match &remote.password {
                            Some(secret) => Some(secret.as_str()),
                            None => None,
                        },
                    ),
                ),
                None => None,
            };
            match find_best_checksum(release.checksums.as_slice()) {
                Some((checksum, kind)) => Ok(
                    Source::Remote(
                        FetchPlan {
                            uri,
                            path,
                            authorization,
                            checksum: checksum.to_owned(),
                            kind,
                            size: release.size,
                        },
                    ),
                ),
                None => Err(Error::ReleaseWithoutChecksums),
            }
        },
    }
}

/// How the firmware of `release` is come by, from the remote that offers it.
/// `None` where the remote lacks what its kind calls for, or the payload has
/// no name to be cached under.
pub open spec fn fetch_source_of(remote: RemoteModel, release: ReleaseModel) -> Option<
    Result<SourceModel, Error>,
> {
    match location_of(remote, release.uri) {
        Some(location) => if cacheable(location) {
            Some(source_of(remote, release, location))
        } else {
            None
        },
        None => None,
    }
}

/// Resolves where the firmware of `release` is and decides how it is come
/// by, see [`fetch_source_of`].
pub fn try_plan_fetch(remote: &Remote, release: &Release) -> (out: Option<Result<Source, Error>>)
    ensures
        match out {
            Some(Ok(source)) => fetch_source_of(remote@, release@) == Some(
                Ok::<SourceModel, Error>(source@),
            ),
            Some(Err(error)) => fetch_source_of(remote@, release@) == Some(
                Err::<SourceModel, Error>(error),
            ),
            None => fetch_source_of(remote@, release@).is_none(),
        },
{
    match remote.try_firmware_location(release.uri.as_str()) {
        Some(location) => {
            let named = match &location {
                Location::Path(_) => true,
                Location::Uri(uri) => crate::text::basename(uri.as_str()).is_some(),
            };
            if named {
                Some(plan_fetch(remote, release, location))
            } else {
                None
            }
        },
        None => None,
    }
}

/// Where a fetch stands.
#[derive(Clone, Copy, Debug, PartialEq, Eq, Structural)]
pub enum FetchState {
    /// The cache is being looked at.
    CheckLocalCache,
    /// The payload is being downloaded.
    Download,
    /// The payload is in the cache and verified.
    Committed,
    /// The download was removed again.
    RolledBack,
    /// The fetch failed before anything was written.
    Failed,
}

/// What came of the step that the caller performed.
#[derive(Debug)]
pub enum FetchEvent {
    /// No file is at the cache path.
    CacheAbsent,
    /// A file is at the cache path and could not be opened.
    CacheOpenFailed,
    /// A file is at the cache path: its content, or `None` where reading it
    /// failed.
    CacheRead(Option<Vec<u8>>),
    /// The cache file could not be created.
    CreateFailed,
    /// The request failed, or was answered with an error status.
    GetFailed,
    /// Writing the answer to the cache file failed.
    CopyFailed,
    /// The cache file could not be rewound.
    SeekFailed,
    /// The answer is in the cache file: its content as read back, or `None`
    /// where reading it failed.
    Downloaded(Option<Vec<u8>>),
}

/// What the caller is to do next.
#[derive(Debug)]
pub enum FetchStep {
    /// Look for a file at the cache path and read it.
    ReadCache,
    /// Create the cache file, or empty the one that is there, so that
    /// nothing of an older file outlasts the download. Then ask for the URI
    /// of the plan, write the answer to the file, reporting progress, rewind
    /// the file and read it.
    Download,
    /// Rewind the cache file and hand it over. `fetched` tells whether it
    /// was downloaded just now.
    Commit { fetched: bool },
    /// Remove the cache file, then fail with the error.
    Rollback(Error),
    /// Fail with the error; there is nothing to remove.
    Fail(Error),
}

/// True where `content` is what the plan asks for.
pub open spec fn verified(plan: FetchPlanModel, content: Option<Vec<u8>>) -> bool {
    match content {
        Some(bytes) => checksum_matches(bytes@, plan.checksum, plan.kind),
        None => false,
    }
}

/// The state reached and the step to take when `event` comes in `state`, or
/// `None` where `event` answers no step that leads to `state`.
///
/// A cached file that matches is handed over without a download. A cached
/// file that does not match, cannot be read or is not there leads to a
/// download. After a download only a payload that matches is handed over;
/// any other outcome removes the file, unless it was never created.
pub open spec fn step_of(plan: FetchPlanModel, state: FetchState, event: FetchEvent) -> Option<
    (FetchState, FetchStep),
> {
    match (state, event) {
        (FetchState::CheckLocalCache, FetchEvent::CacheAbsent) => Some(
            (FetchState::Download, FetchStep::Download),
        ),
        (FetchState::CheckLocalCache, FetchEvent::CacheOpenFailed) => Some(
            (FetchState::Failed, FetchStep::Fail(Error::FirmwareOpen)),
        ),
        (FetchState::CheckLocalCache, FetchEvent::CacheRead(content)) => if verified(
            plan,
            content,
        ) {
            Some((FetchState::Committed, FetchStep::Commit { fetched: false }))
        } else {
            Some((FetchState::Download, FetchStep::Download))
        },
        (FetchState::Download, FetchEvent::CreateFailed) => Some(
            (FetchState::Failed, FetchStep::Fail(Error::FirmwareCreate)),
        ),
        (FetchState::Download, FetchEvent::GetFailed) => Some(
            (FetchState::RolledBack, FetchStep::Rollback(Error::FirmwareGet)),
        ),
        (FetchState::Download, FetchEvent::CopyFailed) => Some(
            (FetchState::RolledBack, FetchStep::Rollback(Error::FirmwareCopy)),
        ),
        (FetchState::Download, FetchEvent::SeekFailed) => Some(
            (FetchState::RolledBack, FetchStep::Rollback(Error::FirmwareSeek)),
        ),
        (FetchState::Download, FetchEvent::Downloaded(content)) => if verified(plan, content) {
            Some((FetchState::Committed, FetchStep::Commit { fetched: true }))
        } else {
            Some((FetchState::RolledBack, FetchStep::Rollback(Error::FirmwareChecksumMismatch)))
        },
        _ => None,
    }
}

/// What the listener of progress is told when `event` comes in `state`, in
/// order: that a download begins, with the size announced; that it has ended,
/// once anything was received or could have been; and that the checksum is
/// being verified.
pub open spec fn notices_of(plan: FetchPlanModel, state: FetchState, event: FetchEvent) -> Seq<
    FlashEvent,
> {
    match step_of(plan, state, event) {
        Some((FetchState::Download, _)) => seq![FlashEvent::DownloadInitiate(plan.size)],
        Some(_) => match event {
            FetchEvent::CopyFailed => seq![FlashEvent::DownloadComplete],
            FetchEvent::SeekFailed => seq![FlashEvent::DownloadComplete],
            FetchEvent::Downloaded(_) => seq![
                FlashEvent::DownloadComplete,
                FlashEvent::VerifyingChecksum,
            ],
            _ => Seq::empty(),
        },
        None => Seq::empty(),
    }
}

/// True of the states in which a fetch has ended.
pub open spec fn is_final(state: FetchState) -> bool {
    state == FetchState::Committed || state == FetchState::RolledBack || state
        == FetchState::Failed
}

/// How many downloads are asked for when `events` come one after another,
/// starting in `state`. An event out of turn ends the count.
pub open spec fn downloads_in(
    plan: FetchPlanModel,
    state: FetchState,
    events: Seq<FetchEvent>,
) -> nat
    decreases events.len(),
{
    if events.len() == 0 {
        0
    } else {
        match step_of(plan, state, events[0]) {
            Some((next, action)) => (if action == FetchStep::Download {
                1nat
            } else {
                0nat
            }) + downloads_in(plan, next, events.skip(1)),
            None => 0,
        }
    }
}

/// A cached payload that matches the checksum is handed over as it is: the
/// fetch ends at once, and whatever is reported afterwards, no download is
/// asked for.
pub proof fn lemma_cache_hit_skips_download(
    plan: FetchPlanModel,
    cached: Vec<u8>,
    later: Seq<FetchEvent>,
)
    requires
        checksum_matches(cached@, plan.checksum, plan.kind),
    ensures
        step_of(plan, FetchState::CheckLocalCache, FetchEvent::CacheRead(Some(cached))) == Some(
            (FetchState::Committed, FetchStep::Commit { fetched: false }),
        ),
        downloads_in(
            plan,
            FetchState::CheckLocalCache,
            seq![FetchEvent::CacheRead(Some(cached))] + later,
        ) == 0,
{
    let events = seq![FetchEvent::CacheRead(Some(cached))] + later;
    assert(events[0] == FetchEvent::CacheRead(Some(cached)));
    lemma_final_states_stay(plan, FetchState::Committed, events.skip(1));
}

/// A cached payload that does not match leads to a download, and to one
/// only: whatever is reported afterwards, no second download is asked for.
/// Where the download matches the checksum it is handed over, so that the
/// cache then holds a payload that matches.
pub proof fn lemma_cache_miss_downloads_once(
    plan: FetchPlanModel,
    cached: Vec<u8>,
    fetched: Vec<u8>,
    later: Seq<FetchEvent>,
)
    requires
        !checksum_matches(cached@, plan.checksum, plan.kind),
    ensures
        step_of(plan, FetchState::CheckLocalCache, FetchEvent::CacheRead(Some(cached))) == Some(
            (FetchState::Download, FetchStep::Download),
        ),
        downloads_in(
            plan,
            FetchState::CheckLocalCache,
            seq![FetchEvent::CacheRead(Some(cached))] + later,
        ) == 1,
        checksum_matches(fetched@, plan.checksum, plan.kind) ==> step_of(
            plan,
            FetchState::Download,
            FetchEvent::Downloaded(Some(fetched)),
        ) == Some((FetchState::Committed, FetchStep::Commit { fetched: true })),
{
    let events = seq![FetchEvent::CacheRead(Some(cached))] + later;
    assert(events[0] == FetchEvent::CacheRead(Some(cached)));
    lemma_no_second_download(plan, events.skip(1));
}

/// Once a download is under way, no further download is asked for.
pub proof fn lemma_no_second_download(plan: FetchPlanModel, events: Seq<FetchEvent>)
    ensures
        downloads_in(plan, FetchState::Download, events) == 0,
{
    if events.len() > 0 {
        match step_of(plan, FetchState::Download, events[0]) {
            Some((next, action)) => {
                lemma_final_states_stay(plan, next, events.skip(1));
            },
            None => {},
        }
    }
}

/// A fetch that has ended takes no further event.
pub proof fn lemma_final_states_stay(
    plan: FetchPlanModel,
    state: FetchState,
    events: Seq<FetchEvent>,
)
    requires
        is_final(state),
    ensures
        events.len() > 0 ==> step_of(plan, state, events[0]).is_none(),
        downloads_in(plan, state, events) == 0,
{
}

/// A download is kept only where it matches the checksum. Where what was
/// written does not match, or cannot be read back, or the transfer broke off,
/// the step that follows removes the file, so that a later fetch starts
/// from a clean state. Only where the file could not be created is there
/// nothing to remove.
pub proof fn lemma_failed_download_rolls_back(plan: FetchPlanModel, event: FetchEvent)
    ensures
        match step_of(plan, FetchState::Download, event) {
            Some((next, FetchStep::Commit { fetched })) => {
                &&& next == FetchState::Committed
                &&& fetched
                &&& event matches FetchEvent::Downloaded(content)
                &&& verified(plan, content)
            },
            Some((next, FetchStep::Rollback(_))) => next == FetchState::RolledBack,
            Some((next, FetchStep::Fail(_))) => next == FetchState::Failed && event
                == FetchEvent::CreateFailed,
            Some(_) => false,
            None => true,
        },
        forall|content: Option<Vec<u8>>|
            !verified(plan, content) ==> #[trigger] step_of(
                plan,
                FetchState::Download,
                FetchEvent::Downloaded(content),
            ) == Some(
                (FetchState::RolledBack, FetchStep::Rollback(Error::FirmwareChecksumMismatch)),
            ),
{
}

/// The state and the step that a fetch starts with.
pub fn begin() -> (out: (FetchState, FetchStep))
    ensures
        out == (FetchState::CheckLocalCache, FetchStep::ReadCache),
{
    (FetchState::CheckLocalCache, FetchStep::ReadCache)
}

/// Whether `content` is what the plan asks for.
fn verify_content(plan: &FetchPlan, content: &Option<Vec<u8>>) -> (matched: bool)
    ensures
        matched == verified(plan@, *content),
{
    match content {
        Some(bytes) => validate_checksum(bytes.as_slice(), plan.checksum.as_str(), plan.kind),
        None => false,
    }
}

/// Takes `event` in `state`: the state reached, the step to take and what
/// the listener of progress is to be told before it, see [`step_of`] and
/// [`notices_of`]. `None` where `event` answers no step that leads to
/// `state`; every state but the first two is final.
pub fn step(plan: &FetchPlan, state: FetchState, event: &FetchEvent) -> (out: Option<
    (FetchState, FetchStep, Vec<FlashEvent>),
>)
    ensures
        match out {
            Some((next, action, notices)) => {
                &&& step_of(plan@, state, *event) == Some((next, action))
                &&& notices@ == notices_of(plan@, state, *event)
            },
            None => step_of(plan@, state, *event).is_none(),
        },
{
    let announce = FlashEvent::DownloadInitiate(plan.size);
    match state {
        FetchState::CheckLocalCache => match event {
            FetchEvent::CacheAbsent => Some(
                (FetchState::Download, FetchStep::Download, vec![announce]),
            ),
            FetchEvent::CacheOpenFailed => Some(
                (FetchState::Failed, FetchStep::Fail(Error::FirmwareOpen), Vec::new()),
            ),
            FetchEvent::CacheRead(content) => if verify_content(plan, content) {
                Some((FetchState::Committed, FetchStep::Commit { fetched: false }, Vec::new()))
            } else {
                Some((FetchState::Download, FetchStep::Download, vec![announce]))
            },
            _ => None,
        },
        FetchState::Download => match event {
            FetchEvent::CreateFailed => Some(
                (FetchState::Failed, FetchStep::Fail(Error::FirmwareCreate), Vec::new()),
            ),
            FetchEvent::GetFailed => Some(
                (FetchState::RolledBack, FetchStep::Rollback(Error::FirmwareGet), Vec::new()),
            ),
            FetchEvent::CopyFailed => Some(
                (
                    FetchState::RolledBack,
                    FetchStep::Rollback(Error::FirmwareCopy),
                    vec![FlashEvent::DownloadComplete],
                ),
            ),
            FetchEvent::SeekFailed => Some(
                (
                    FetchState::RolledBack,
                    FetchStep::Rollback(Error::FirmwareSeek),
                    vec![FlashEvent::DownloadComplete],
                ),
            ),
            FetchEvent::Downloaded(content) => {
                let notices = vec![FlashEvent::DownloadComplete, FlashEvent::VerifyingChecksum];
                if verify_content(plan, content) {
                    Some((FetchState::Committed, FetchStep::Commit { fetched: true }, notices))
                } else {
                    Some(
                        (
                            FetchState::RolledBack,
                            FetchStep::Rollback(Error::FirmwareChecksumMismatch),
                            notices,
                        ),
                    )
                }
            },
            _ => None,
        },
        _ => None,
    }
}

} // verus!
