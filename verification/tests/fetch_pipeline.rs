use fwupd_dbus::fetch::{authorization_header, basic_authorization, begin, step};
use fwupd_dbus::{
    plan_fetch, try_plan_fetch, DigestKind, Error, FetchEvent, FetchPlan, FetchState,
    FetchStep, FlashEvent, KeyringKind, Location, Release, Remote, RemoteId, RemoteKind, Source,
};

const SHA256_ABC: &str = "ba7816bf8f01cfea414140de5dae2223b00361a396177a9cb410ff61f20015ad";
const SHA1_ABC: &str = "a9993e364706816aba3e25717850c26c9cd0d89d";
const MD5_ABC: &str = "900150983cd24fb0d6963f7d28e17f72";

fn plan() -> FetchPlan {
    FetchPlan {
        uri: "https://cdn.example/firmware.cab".to_string(),
        path: "lvfs/firmware.cab".to_string(),
        authorization: None,
        checksum: SHA256_ABC.to_string(),
        kind: DigestKind::SHA256,
        size: 3,
    }
}

fn download_remote() -> Remote {
    Remote {
        enabled: true,
        kind: RemoteKind::Download,
        keyring: KeyringKind::GPG,
        remote_id: RemoteId("lvfs".to_string()),
        uri: Some("https://s3.amazonaws.com/lvfsbucket/downloads/firmware.xml.gz".into()),
        ..Default::default()
    }
}

fn release(uri: &str, checksums: &[&str]) -> Release {
    Release {
        uri: uri.to_string(),
        checksums: checksums.iter().map(|s| s.to_string()).collect(),
        size: 1234,
        ..Default::default()
    }
}

fn shape(step: &FetchStep) -> String {
    match step {
        FetchStep::ReadCache => "read-cache".to_string(),
        FetchStep::Download => "download".to_string(),
        FetchStep::Commit { fetched } => format!("commit fetched={}", fetched),
        FetchStep::Rollback(error) => format!("rollback {:?}", error),
        FetchStep::Fail(error) => format!("fail {:?}", error),
    }
}

fn take(state: FetchState, event: FetchEvent) -> Option<(FetchState, String, Vec<FlashEvent>)> {
    step(&plan(), state, &event).map(|(next, action, notices)| (next, shape(&action), notices))
}

#[test]
fn fetch_begins_at_the_cache() {
    let (state, action) = begin();
    assert_eq!(state, FetchState::CheckLocalCache);
    assert_eq!(shape(&action), "read-cache");
}

#[test]
fn cache_hit_skips_the_download() {
    let out = take(FetchState::CheckLocalCache, FetchEvent::CacheRead(Some(b"abc".to_vec())));
    assert_eq!(out, Some((FetchState::Committed, "commit fetched=false".to_string(), vec![])));
}

#[test]
fn cache_mismatch_leads_to_one_download() {
    let out = take(FetchState::CheckLocalCache, FetchEvent::CacheRead(Some(b"abd".to_vec())));
    assert_eq!(
        out,
        Some((
            FetchState::Download,
            "download".to_string(),
            vec![FlashEvent::DownloadInitiate(3)]
        ))
    );
    let out = take(FetchState::Download, FetchEvent::Downloaded(Some(b"abc".to_vec())));
    assert_eq!(
        out,
        Some((
            FetchState::Committed,
            "commit fetched=true".to_string(),
            vec![FlashEvent::DownloadComplete, FlashEvent::VerifyingChecksum]
        ))
    );
    // committed is final: nothing is asked for any more
    assert_eq!(take(FetchState::Committed, FetchEvent::CacheAbsent), None);
    assert_eq!(take(FetchState::Committed, FetchEvent::Downloaded(Some(b"abc".to_vec()))), None);
}

#[test]
fn missing_or_unreadable_cache_leads_to_a_download() {
    for event in [FetchEvent::CacheAbsent, FetchEvent::CacheRead(None)] {
        assert_eq!(
            take(FetchState::CheckLocalCache, event),
            Some((
                FetchState::Download,
                "download".to_string(),
                vec![FlashEvent::DownloadInitiate(3)]
            ))
        );
    }
}

#[test]
fn cache_that_cannot_be_opened_fails() {
    assert_eq!(
        take(FetchState::CheckLocalCache, FetchEvent::CacheOpenFailed),
        Some((FetchState::Failed, "fail FirmwareOpen".to_string(), vec![]))
    );
}

#[test]
fn corrupted_download_is_rolled_back() {
    let done = vec![FlashEvent::DownloadComplete, FlashEvent::VerifyingChecksum];
    assert_eq!(
        take(FetchState::Download, FetchEvent::Downloaded(Some(b"ab".to_vec()))),
        Some((
            FetchState::RolledBack,
            "rollback FirmwareChecksumMismatch".to_string(),
            done.clone()
        ))
    );
    assert_eq!(
        take(FetchState::Download, FetchEvent::Downloaded(Some(Vec::new()))),
        Some((
            FetchState::RolledBack,
            "rollback FirmwareChecksumMismatch".to_string(),
            done.clone()
        ))
    );
    assert_eq!(
        take(FetchState::Download, FetchEvent::Downloaded(None)),
        Some((FetchState::RolledBack, "rollback FirmwareChecksumMismatch".to_string(), done))
    );
    // rolled back is final: a retry starts over
    assert_eq!(take(FetchState::RolledBack, FetchEvent::CacheAbsent), None);
    assert_eq!(shape(&begin().1), "read-cache");
}

#[test]
fn broken_transfers_are_rolled_back() {
    assert_eq!(
        take(FetchState::Download, FetchEvent::GetFailed),
        Some((FetchState::RolledBack, "rollback FirmwareGet".to_string(), vec![]))
    );
    assert_eq!(
        take(FetchState::Download, FetchEvent::CopyFailed),
        Some((
            FetchState::RolledBack,
            "rollback FirmwareCopy".to_string(),
            vec![FlashEvent::DownloadComplete]
        ))
    );
    assert_eq!(
        take(FetchState::Download, FetchEvent::SeekFailed),
        Some((
            FetchState::RolledBack,
            "rollback FirmwareSeek".to_string(),
            vec![FlashEvent::DownloadComplete]
        ))
    );
}

#[test]
fn file_that_cannot_be_created_leaves_nothing_to_remove() {
    assert_eq!(
        take(FetchState::Download, FetchEvent::CreateFailed),
        Some((FetchState::Failed, "fail FirmwareCreate".to_string(), vec![]))
    );
    assert_eq!(take(FetchState::Failed, FetchEvent::GetFailed), None);
}

#[test]
fn events_out_of_turn_are_refused() {
    assert_eq!(take(FetchState::CheckLocalCache, FetchEvent::GetFailed), None);
    assert_eq!(take(FetchState::CheckLocalCache, FetchEvent::CreateFailed), None);
    assert_eq!(take(FetchState::CheckLocalCache, FetchEvent::CopyFailed), None);
    assert_eq!(take(FetchState::CheckLocalCache, FetchEvent::SeekFailed), None);
    assert_eq!(
        take(FetchState::CheckLocalCache, FetchEvent::Downloaded(Some(b"abc".to_vec()))),
        None
    );
    assert_eq!(take(FetchState::Download, FetchEvent::CacheAbsent), None);
    assert_eq!(take(FetchState::Download, FetchEvent::CacheOpenFailed), None);
    assert_eq!(take(FetchState::Download, FetchEvent::CacheRead(Some(b"abc".to_vec()))), None);
}

#[test]
fn basic_authorization_values() {
    assert_eq!(basic_authorization("user", Some("pass")), "Basic dXNlcjpwYXNz");
    assert_eq!(
        basic_authorization("Aladdin", Some("open sesame")),
        "Basic QWxhZGRpbjpvcGVuIHNlc2FtZQ=="
    );
    assert_eq!(basic_authorization("user", None), "Basic dXNlcjo=");
    assert_eq!(basic_authorization("user", Some("")), "Basic dXNlcjo=");
    assert_eq!(basic_authorization("", None), "Basic Og==");
}

#[test]
fn authorization_header_puts_the_scheme_first() {
    assert_eq!(authorization_header("dXNlcjpwYXNz"), "Basic dXNlcjpwYXNz");
    assert_eq!(authorization_header(""), "Basic ");
}

#[test]
fn local_payloads_are_neither_cached_nor_verified() {
    let remote = download_remote();
    let out = plan_fetch(
        &remote,
        &release("fw.cab", &[]),
        Location::Path("/usr/share/fw/fw.cab".to_string()),
    );
    match out {
        Ok(Source::Local(path)) => assert_eq!(path, "/usr/share/fw/fw.cab"),
        other => panic!("{:?}", other),
    }
}

#[test]
fn remote_payloads_get_a_plan() {
    let mut remote = download_remote();
    remote.username = Some("user".to_string());
    remote.password = Some("pass".to_string());
    let out = plan_fetch(
        &remote,
        &release("firmware.cab", &[MD5_ABC, SHA1_ABC, SHA256_ABC]),
        Location::Uri("https://s3.amazonaws.com/lvfsbucket/downloads/firmware.cab".to_string()),
    );
    match out {
        Ok(Source::Remote(plan)) => {
            assert_eq!(plan.uri, "https://s3.amazonaws.com/lvfsbucket/downloads/firmware.cab");
            assert_eq!(plan.path, "lvfs/firmware.cab");
            assert_eq!(plan.authorization.as_deref(), Some("Basic dXNlcjpwYXNz"));
            assert_eq!(plan.checksum, SHA256_ABC);
            assert_eq!(plan.kind, DigestKind::SHA256);
            assert_eq!(plan.size, 1234);
        }
        other => panic!("{:?}", other),
    }
}

#[test]
fn plan_without_credentials_has_no_header() {
    let mut remote = download_remote();
    remote.password = Some("pass".to_string());
    let out = plan_fetch(
        &remote,
        &release("firmware.cab", &[SHA1_ABC]),
        Location::Uri("https://host/dir/firmware.cab".to_string()),
    );
    match out {
        Ok(Source::Remote(plan)) => {
            assert_eq!(plan.authorization, None);
            assert_eq!(plan.checksum, SHA1_ABC);
            assert_eq!(plan.kind, DigestKind::SHA1);
        }
        other => panic!("{:?}", other),
    }
}

#[test]
fn release_without_trusted_checksum_is_not_fetched() {
    let remote = download_remote();
    for checksums in [vec![], vec![MD5_ABC], vec!["abc"], vec!["abc", MD5_ABC, ""]] {
        let out = plan_fetch(
            &remote,
            &release("firmware.cab", &checksums),
            Location::Uri("https://host/dir/firmware.cab".to_string()),
        );
        assert!(matches!(out, Err(Error::ReleaseWithoutChecksums)));
    }
}

#[test]
fn try_plan_fetch_resolves_the_release() {
    let remote = download_remote();
    match try_plan_fetch(&remote, &release("firmware.cab", &[SHA256_ABC])) {
        Some(Ok(Source::Remote(plan))) => {
            assert_eq!(plan.uri, "https://s3.amazonaws.com/lvfsbucket/downloads/firmware.cab");
            assert_eq!(plan.path, "lvfs/firmware.cab");
        }
        other => panic!("{:?}", other),
    }
    assert!(matches!(
        try_plan_fetch(&remote, &release("firmware.cab", &[MD5_ABC])),
        Some(Err(Error::ReleaseWithoutChecksums))
    ));
}

#[test]
fn try_plan_fetch_of_local_remotes() {
    let mut remote = download_remote();
    remote.kind = RemoteKind::Local;
    remote.filename_cache = "/usr/share/fwupd/remotes.d/vendor/firmware/metadata.xml".to_string();
    match try_plan_fetch(&remote, &release("fw.cab", &[])) {
        Some(Ok(Source::Local(path))) => {
            assert_eq!(path, "/usr/share/fwupd/remotes.d/vendor/firmware/fw.cab")
        }
        other => panic!("{:?}", other),
    }
    remote.kind = RemoteKind::Directory;
    match try_plan_fetch(&remote, &release("file:///tmp/fw.cab", &[])) {
        Some(Ok(Source::Local(path))) => assert_eq!(path, "/tmp/fw.cab"),
        other => panic!("{:?}", other),
    }
}

#[test]
fn try_plan_fetch_refuses_what_cannot_be_resolved() {
    let mut remote = download_remote();
    // no absolute URI
    remote.uri = None;
    assert!(try_plan_fetch(&remote, &release("firmware.cab", &[SHA256_ABC])).is_none());
    remote.uri = Some("metadata.xml".to_string());
    assert!(try_plan_fetch(&remote, &release("firmware.cab", &[SHA256_ABC])).is_none());
    // a local remote without a cache file
    remote.kind = RemoteKind::Local;
    remote.filename_cache = String::new();
    assert!(try_plan_fetch(&remote, &release("fw.cab", &[SHA256_ABC])).is_none());
    // a directory remote whose reference is too short
    remote.kind = RemoteKind::Directory;
    assert!(try_plan_fetch(&remote, &release("file:/", &[SHA256_ABC])).is_none());
}
