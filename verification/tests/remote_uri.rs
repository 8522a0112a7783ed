use fwupd_dbus::{KeyringKind, Remote, RemoteKind};

fn download_remote() -> Remote {
    Remote {
        enabled: true,
        kind: RemoteKind::Download,
        keyring: KeyringKind::GPG,
        firmware_base_uri: Some("https://my.fancy.cdn/".into()),
        uri: Some("https://s3.amazonaws.com/lvfsbucket/downloads/firmware.xml.gz".into()),
        ..Default::default()
    }
}

fn nopath_remote() -> Remote {
    Remote {
        enabled: true,
        kind: RemoteKind::Download,
        keyring: KeyringKind::GPG,
        uri: Some("https://s3.amazonaws.com/lvfsbucket/downloads/firmware.xml.gz".into()),
        ..Default::default()
    }
}

#[test]
fn remote_baseuri() {
    let remote = download_remote();
    let firmware_uri = remote.firmware_uri("http://bbc.co.uk/firmware.cab");
    assert_eq!(firmware_uri.to_string().as_str(), "https://my.fancy.cdn/firmware.cab")
}

#[test]
fn remote_nopath() {
    let remote = nopath_remote();
    let firmware_uri = remote.firmware_uri("firmware.cab");
    assert_eq!(
        firmware_uri.to_string().as_str(),
        "https://s3.amazonaws.com/lvfsbucket/downloads/firmware.cab"
    )
}
