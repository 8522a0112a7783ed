use fwupd_dbus::{KeyringKind, Location, Remote, RemoteId, RemoteKind};

fn remote(kind: RemoteKind) -> Remote {
    Remote {
        enabled: true,
        kind,
        keyring: KeyringKind::GPG,
        remote_id: RemoteId("vendor".to_string()),
        filename_cache: "/usr/share/fwupd/remotes.d/vendor/firmware/metadata.xml".to_string(),
        uri: Some("https://s3.amazonaws.com/lvfsbucket/downloads/firmware.xml.gz".into()),
        ..Default::default()
    }
}

fn path_of(location: Option<Location>) -> Option<String> {
    match location {
        Some(Location::Path(path)) => Some(path),
        _ => None,
    }
}

fn uri_of(location: Option<Location>) -> Option<String> {
    match location {
        Some(Location::Uri(uri)) => Some(uri),
        _ => None,
    }
}

#[test]
fn firmware_reference_with_a_base() {
    let mut remote = remote(RemoteKind::Download);
    remote.firmware_base_uri = Some("https://my.fancy.cdn/".to_string());
    assert_eq!(
        remote.firmware_reference("http://bbc.co.uk/firmware.cab").as_deref(),
        Some("https://my.fancy.cdn/firmware.cab")
    );
    assert_eq!(
        remote.firmware_reference("firmware.cab").as_deref(),
        Some("https://my.fancy.cdn/firmware.cab")
    );
    remote.firmware_base_uri = Some("https://my.fancy.cdn".to_string());
    assert_eq!(
        remote.firmware_reference("a/b/c.cab").as_deref(),
        Some("https://my.fancy.cdn/c.cab")
    );
    remote.firmware_base_uri = Some("https://my.fancy.cdn//".to_string());
    assert_eq!(
        remote.firmware_reference("c.cab").as_deref(),
        Some("https://my.fancy.cdn//c.cab")
    );
    assert_eq!(remote.firmware_reference("a/.."), None);
    assert_eq!(remote.firmware_reference(""), None);
}

#[test]
fn firmware_reference_beside_the_metadata() {
    let remote = remote(RemoteKind::Download);
    assert_eq!(
        remote.firmware_reference("firmware.cab").as_deref(),
        Some("https://s3.amazonaws.com/lvfsbucket/downloads/firmware.cab")
    );
    assert_eq!(
        remote.firmware_reference("").as_deref(),
        Some("https://s3.amazonaws.com/lvfsbucket/downloads/")
    );
}

#[test]
fn firmware_reference_taken_as_it_is() {
    let remote = remote(RemoteKind::Download);
    assert_eq!(
        remote.firmware_reference("https://other.host/x/firmware.cab").as_deref(),
        Some("https://other.host/x/firmware.cab")
    );
    assert_eq!(remote.firmware_reference("x/firmware.cab").as_deref(), Some("x/firmware.cab"));
}

#[test]
fn firmware_reference_needs_a_metadata_uri() {
    let mut remote = remote(RemoteKind::Download);
    remote.uri = None;
    assert_eq!(remote.firmware_reference("firmware.cab"), None);
    remote.uri = Some("/".to_string());
    assert_eq!(remote.firmware_reference("firmware.cab"), None);
    remote.uri = Some("metadata.xml".to_string());
    assert_eq!(remote.firmware_reference("firmware.cab").as_deref(), Some("/firmware.cab"));
}

#[test]
fn try_firmware_uri_gives_the_normal_form() {
    let remote = remote(RemoteKind::Download);
    assert_eq!(
        remote.try_firmware_uri("firmware.cab").as_deref(),
        Some("https://s3.amazonaws.com/lvfsbucket/downloads/firmware.cab")
    );
    assert_eq!(
        remote.try_firmware_uri("HTTPS://Example.COM/a/../b/firmware.cab").as_deref(),
        Some("https://example.com/b/firmware.cab")
    );
    assert_eq!(
        remote.try_firmware_uri("https://example.com:443/f w.cab").as_deref(),
        Some("https://example.com/f%20w.cab")
    );
}

#[test]
fn try_firmware_uri_refuses_what_is_no_uri() {
    let mut remote = remote(RemoteKind::Download);
    assert_eq!(remote.try_firmware_uri("x/firmware.cab"), None);
    assert_eq!(remote.try_firmware_uri("/firmware.cab"), None);
    assert_eq!(remote.try_firmware_uri("https://"), None);
    remote.uri = None;
    assert_eq!(remote.try_firmware_uri("firmware.cab"), None);
    remote.firmware_base_uri = Some("not a uri".to_string());
    assert_eq!(remote.try_firmware_uri("firmware.cab"), None);
}

#[test]
fn local_remote_keeps_firmware_beside_its_metadata() {
    let remote = remote(RemoteKind::Local);
    assert_eq!(
        path_of(remote.try_firmware_location("fw.cab")).as_deref(),
        Some("/usr/share/fwupd/remotes.d/vendor/firmware/fw.cab")
    );
    assert_eq!(
        path_of(remote.try_firmware_location("sub/fw.cab")).as_deref(),
        Some("/usr/share/fwupd/remotes.d/vendor/firmware/sub/fw.cab")
    );
    assert_eq!(
        path_of(remote.try_firmware_location("/abs/fw.cab")).as_deref(),
        Some("/abs/fw.cab")
    );
    match remote.firmware_location("fw.cab") {
        Location::Path(path) => {
            assert_eq!(path, "/usr/share/fwupd/remotes.d/vendor/firmware/fw.cab")
        }
        other => panic!("{:?}", other),
    }
}

#[test]
fn local_remote_in_the_root_or_without_cache_file() {
    let mut remote = remote(RemoteKind::Local);
    remote.filename_cache = "/metadata.xml".to_string();
    assert_eq!(path_of(remote.try_firmware_location("fw.cab")).as_deref(), Some("/fw.cab"));
    remote.filename_cache = "metadata.xml".to_string();
    assert_eq!(path_of(remote.try_firmware_location("fw.cab")).as_deref(), Some("fw.cab"));
    remote.filename_cache = String::new();
    assert!(remote.try_firmware_location("fw.cab").is_none());
}

#[test]
fn directory_remote_strips_the_scheme() {
    let remote = remote(RemoteKind::Directory);
    assert_eq!(
        path_of(remote.try_firmware_location("file:///tmp/fw.cab")).as_deref(),
        Some("/tmp/fw.cab")
    );
    assert_eq!(path_of(remote.try_firmware_location("file://")).as_deref(), Some(""));
    assert_eq!(path_of(remote.try_firmware_location("1234567rest")).as_deref(), Some("rest"));
    assert!(remote.try_firmware_location("file:/").is_none());
    assert!(remote.try_firmware_location("").is_none());
}

#[test]
fn other_remotes_resolve_to_a_uri() {
    for kind in [RemoteKind::Download, RemoteKind::Unknown] {
        let remote = remote(kind);
        assert_eq!(
            uri_of(remote.try_firmware_location("firmware.cab")).as_deref(),
            Some("https://s3.amazonaws.com/lvfsbucket/downloads/firmware.cab")
        );
        assert!(remote.try_firmware_location("x/firmware.cab").is_none());
    }
}

#[test]
fn local_cache_is_named_by_remote_and_basename() {
    let remote = remote(RemoteKind::Download);
    assert_eq!(
        remote.local_cache("/var/lib/fwupd/remotes.d/lvfs/metadata.xml.gz"),
        "vendor/metadata.xml.gz"
    );
    assert_eq!(remote.local_cache("metadata.xml.gz.asc"), "vendor/metadata.xml.gz.asc");
    assert_eq!(remote.local_cache("https://host/dir/firmware.cab"), "vendor/firmware.cab");
    let mut nameless = remote.clone();
    nameless.remote_id = RemoteId(String::new());
    assert_eq!(nameless.local_cache("a/b"), "b");
    nameless.remote_id = RemoteId("x/".to_string());
    assert_eq!(nameless.local_cache("a/b"), "x/b");
}
