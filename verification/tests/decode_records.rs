use fwupd_dbus::{
    Device, DeviceFlags, Entry, KeyringKind, Mismatch, Release, ReleaseFlags, Remote, RemoteKind,
    Request, Shape, TrustFlags, UpdateState, VersionFormat, WireValue,
};

fn nothing() -> WireValue {
    WireValue { text: None, unsigned: None, signed: None, items: None }
}

fn text(s: &str) -> WireValue {
    WireValue { text: Some(s.to_string()), ..nothing() }
}

fn number(n: u64) -> WireValue {
    WireValue { unsigned: Some(n), signed: i64::try_from(n).ok(), ..nothing() }
}

fn negative(n: i64) -> WireValue {
    WireValue { signed: Some(n), ..nothing() }
}

fn list_of(items: Vec<WireValue>) -> WireValue {
    WireValue { items: Some(items), ..nothing() }
}

/// A variant that holds `inner`: it reads as `inner` does, and as a list of one.
fn variant(inner: WireValue) -> WireValue {
    WireValue {
        text: inner.text.clone(),
        unsigned: inner.unsigned,
        signed: inner.signed,
        items: Some(vec![inner]),
    }
}

fn texts(items: &[&str]) -> WireValue {
    variant(list_of(items.iter().map(|s| text(s)).collect()))
}

fn entry(key: &str, value: WireValue) -> Entry {
    (key.to_string(), value)
}

fn mismatch(out: Result<impl std::fmt::Debug, Mismatch>) -> (String, Shape) {
    let e = out.unwrap_err();
    (e.key, e.expected)
}

#[test]
fn device_from_nothing_is_blank() {
    let device = Device::from_entries(&[]).unwrap();
    assert_eq!(device.name, "");
    assert_eq!(device.device_id.0, "");
    assert_eq!(device.created, 0);
    assert_eq!(device.flags, DeviceFlags { bits: 0 });
    assert!(device.checksum.is_none());
    assert!(device.guid.is_empty());
    assert!(device.update_state.is_none());
    assert!(device.version_format.is_none());
    assert!(device.parent_device_id.is_none());
}

#[test]
fn device_takes_every_attribute() {
    let entries = vec![
        entry("Checksum", variant(text("abc"))),
        entry("Created", variant(number(1_600_000_000))),
        entry("Description", variant(text("<p>desc</p>"))),
        entry("DeviceId", variant(text("a1b2c3"))),
        entry("Flags", variant(number(0x22))),
        entry("FlashesLeft", variant(number(5))),
        entry("Guid", texts(&["g-1", "g-2"])),
        entry("Icon", texts(&["computer"])),
        entry("InstallDuration", variant(number(120))),
        entry("InstanceIds", texts(&["USB\\VID_1", "USB\\VID_2", "USB\\VID_3"])),
        entry("Modified", variant(number(1_700_000_000))),
        entry("Name", variant(text("Thunderbolt Controller"))),
        entry("ParentDeviceId", variant(text("parent"))),
        entry("Plugin", variant(text("thunderbolt"))),
        entry("Serial", variant(text("SN1"))),
        entry("Summary", variant(text("summary"))),
        entry("UpdateError", variant(text("it broke"))),
        entry("UpdateMessage", variant(text("replug"))),
        entry("UpdateState", variant(number(4))),
        entry("Vendor", variant(text("ACME"))),
        entry("VendorId", variant(text("USB:0x1234"))),
        entry("Version", variant(text("1.2.3"))),
        entry("VersionBootloader", variant(text("0.1"))),
        entry("VersionLowest", variant(text("1.0.0"))),
        entry("VersionFormat", variant(number(4))),
    ];
    let device = Device::from_entries(&entries).unwrap();
    assert_eq!(device.checksum.as_deref(), Some("abc"));
    assert_eq!(device.created, 1_600_000_000);
    assert_eq!(device.description.as_deref(), Some("<p>desc</p>"));
    assert_eq!(device.device_id.0, "a1b2c3");
    assert_eq!(device.flags.bits, 0x22);
    assert_eq!(device.flashes_left, Some(5));
    assert_eq!(device.guid, vec!["g-1", "g-2"]);
    assert_eq!(device.icon, vec!["computer"]);
    assert_eq!(device.install_duration, Some(120));
    assert_eq!(device.instance_ids, vec!["USB\\VID_1", "USB\\VID_2", "USB\\VID_3"]);
    assert_eq!(device.modified, Some(1_700_000_000));
    assert_eq!(device.name, "Thunderbolt Controller");
    assert_eq!(device.parent_device_id.map(|id| id.0).as_deref(), Some("parent"));
    assert_eq!(device.plugin, "thunderbolt");
    assert_eq!(device.serial.as_deref(), Some("SN1"));
    assert_eq!(device.summary.as_deref(), Some("summary"));
    assert_eq!(device.update_error.as_deref(), Some("it broke"));
    assert_eq!(device.update_message.as_deref(), Some("replug"));
    assert_eq!(device.update_state, Some(UpdateState::NeedsReboot));
    assert_eq!(device.vendor, "ACME");
    assert_eq!(device.vendor_id, "USB:0x1234");
    assert_eq!(device.version, "1.2.3");
    assert_eq!(device.version_bootloader.as_deref(), Some("0.1"));
    assert_eq!(device.version_lowest.as_deref(), Some("1.0.0"));
    assert_eq!(device.version_format, Some(VersionFormat::Triplet));
}

#[test]
fn device_passes_over_unknown_keys() {
    let entries = vec![
        entry("Nonsense", variant(number(1))),
        entry("Name", variant(text("n"))),
        entry("name", variant(text("lower"))),
    ];
    let device = Device::from_entries(&entries).unwrap();
    assert_eq!(device.name, "n");
}

#[test]
fn device_counts_a_repeated_key_the_last_time() {
    let entries = vec![
        entry("Name", variant(text("first"))),
        entry("Version", variant(text("1"))),
        entry("Name", variant(text("second"))),
    ];
    let device = Device::from_entries(&entries).unwrap();
    assert_eq!(device.name, "second");
    assert_eq!(device.version, "1");
}

#[test]
fn device_refuses_a_number_for_a_text() {
    let entries = vec![entry("Name", variant(number(3)))];
    assert_eq!(mismatch(Device::from_entries(&entries)), ("Name".to_string(), Shape::Text));
}

#[test]
fn device_refuses_a_text_for_a_number() {
    let entries = vec![entry("Created", variant(text("now")))];
    assert_eq!(
        mismatch(Device::from_entries(&entries)),
        ("Created".to_string(), Shape::Unsigned)
    );
    let entries = vec![entry("Flags", variant(negative(-1)))];
    assert_eq!(mismatch(Device::from_entries(&entries)), ("Flags".to_string(), Shape::Unsigned));
}

#[test]
fn device_reports_the_first_unfit_value() {
    let entries = vec![
        entry("Name", variant(text("fine"))),
        entry("Created", variant(text("now"))),
        entry("Version", variant(number(1))),
    ];
    assert_eq!(
        mismatch(Device::from_entries(&entries)),
        ("Created".to_string(), Shape::Unsigned)
    );
}

#[test]
fn device_lists_need_two_levels() {
    // no list at all
    let entries = vec![entry("Guid", text("g-1"))];
    assert_eq!(mismatch(Device::from_entries(&entries)), ("Guid".to_string(), Shape::List));
    // a list whose item is no list
    let entries = vec![entry("Guid", variant(text("g-1")))];
    assert_eq!(mismatch(Device::from_entries(&entries)), ("Guid".to_string(), Shape::List));
    // a list of lists whose item is no text
    let entries = vec![entry("Icon", variant(list_of(vec![text("a"), number(2)])))];
    assert_eq!(mismatch(Device::from_entries(&entries)), ("Icon".to_string(), Shape::Text));
}

#[test]
fn device_lists_are_flattened_in_order() {
    let value = list_of(vec![
        list_of(vec![text("a"), text("b")]),
        list_of(vec![]),
        list_of(vec![text("c")]),
    ]);
    let device = Device::from_entries(&[entry("Guid", value)]).unwrap();
    assert_eq!(device.guid, vec!["a", "b", "c"]);
    let device = Device::from_entries(&[entry("Guid", list_of(vec![]))]).unwrap();
    assert!(device.guid.is_empty());
}

#[test]
fn device_numbers_keep_their_low_bits() {
    let entries = vec![
        entry("FlashesLeft", variant(number(0x1_0000_0007))),
        entry("InstallDuration", variant(number(u64::MAX))),
        entry("UpdateState", variant(number(0x102))),
        entry("VersionFormat", variant(number(0x100))),
    ];
    let device = Device::from_entries(&entries).unwrap();
    assert_eq!(device.flashes_left, Some(7));
    assert_eq!(device.install_duration, Some(u32::MAX));
    assert_eq!(device.update_state, Some(UpdateState::Success));
    assert_eq!(device.version_format, Some(VersionFormat::Unknown));
}

#[test]
fn device_keeps_every_flag_bit() {
    let device = Device::from_entries(&[entry("Flags", variant(number(u64::MAX)))]).unwrap();
    assert_eq!(device.flags.bits, u64::MAX);
    let device = Device::from_entries(&[entry("Flags", variant(number(1 << 40)))]).unwrap();
    assert_eq!(device.flags.bits, 1 << 40);
}

#[test]
fn update_state_codes() {
    assert_eq!(UpdateState::from(0), UpdateState::Unknown);
    assert_eq!(UpdateState::from(1), UpdateState::Pending);
    assert_eq!(UpdateState::from(2), UpdateState::Success);
    assert_eq!(UpdateState::from(3), UpdateState::Failed);
    assert_eq!(UpdateState::from(4), UpdateState::NeedsReboot);
    assert_eq!(UpdateState::from(5), UpdateState::FailedTransient);
    assert_eq!(UpdateState::from(6), UpdateState::Unknown);
    assert_eq!(UpdateState::from(255), UpdateState::Unknown);
}

#[test]
fn version_format_codes() {
    assert_eq!(VersionFormat::from(0), VersionFormat::Unknown);
    assert_eq!(VersionFormat::from(1), VersionFormat::Plain);
    assert_eq!(VersionFormat::from(2), VersionFormat::Number);
    assert_eq!(VersionFormat::from(3), VersionFormat::Pair);
    assert_eq!(VersionFormat::from(4), VersionFormat::Triplet);
    assert_eq!(VersionFormat::from(5), VersionFormat::Quad);
    assert_eq!(VersionFormat::from(6), VersionFormat::Bcd);
    assert_eq!(VersionFormat::from(7), VersionFormat::IntelMe);
    assert_eq!(VersionFormat::from(8), VersionFormat::IntelMe2);
    assert_eq!(VersionFormat::from(9), VersionFormat::Unknown);
}

#[test]
fn release_takes_every_attribute() {
    let entries = vec![
        entry("AppstreamId", variant(text("com.acme.fw"))),
        entry("Categories", texts(&["X-Device", "X-System"])),
        entry("Checksum", variant(text("aaaa,bbbb"))),
        entry("Description", variant(text("notes"))),
        entry("DetailsUrl", variant(text("https://acme/details"))),
        entry("Filename", variant(text("fw.bin"))),
        entry("Flags", variant(number(0x5))),
        entry("Homepage", variant(text("https://acme"))),
        entry("InstallDuration", variant(number(30))),
        entry("License", variant(text("proprietary"))),
        entry("Name", variant(text("Firmware"))),
        entry("Protocol", variant(text("org.usb.dfu"))),
        entry("RemoteId", variant(text("lvfs"))),
        entry("Size", variant(number(4096))),
        entry("SourceUrl", variant(text("https://acme/src"))),
        entry("Summary", variant(text("sum"))),
        entry("TrustFlags", variant(number(0x3))),
        entry("UpdateMessage", variant(text("msg"))),
        entry("Uri", variant(text("https://acme/fw.cab"))),
        entry("Vendor", variant(text("ACME"))),
        entry("Version", variant(text("2.0"))),
    ];
    let release = Release::from_entries(&entries).unwrap();
    assert_eq!(release.appstream_id, "com.acme.fw");
    assert_eq!(release.categories, vec!["X-Device", "X-System"]);
    assert_eq!(release.checksums, vec!["aaaa", "bbbb"]);
    assert_eq!(release.created, 0);
    assert_eq!(release.description, "notes");
    assert_eq!(release.details_url.as_deref(), Some("https://acme/details"));
    assert_eq!(release.filename, "fw.bin");
    assert_eq!(release.flags, ReleaseFlags { bits: 0x5 });
    assert_eq!(release.homepage, "https://acme");
    assert_eq!(release.install_duration, 30);
    assert_eq!(release.license, "proprietary");
    assert_eq!(release.name, "Firmware");
    assert_eq!(release.protocol.as_deref(), Some("org.usb.dfu"));
    assert_eq!(release.remote_id.0, "lvfs");
    assert_eq!(release.size, 4096);
    assert_eq!(release.source_url.as_deref(), Some("https://acme/src"));
    assert_eq!(release.summary, "sum");
    assert_eq!(release.trust_flags, TrustFlags { bits: 0x3 });
    assert_eq!(release.update_message.as_deref(), Some("msg"));
    assert_eq!(release.uri, "https://acme/fw.cab");
    assert_eq!(release.vendor, "ACME");
    assert_eq!(release.version, "2.0");
}

#[test]
fn release_does_not_read_created() {
    let release = Release::from_entries(&[entry("Created", variant(number(77)))]).unwrap();
    assert_eq!(release.created, 0);
    let release = Release::from_entries(&[entry("Created", variant(text("x")))]).unwrap();
    assert_eq!(release.created, 0);
}

#[test]
fn release_checksums_are_split_on_commas() {
    let one = Release::from_entries(&[entry("Checksum", variant(text("aaaa")))]).unwrap();
    assert_eq!(one.checksums, vec!["aaaa"]);
    let three = Release::from_entries(&[entry("Checksum", variant(text("a,b,c")))]).unwrap();
    assert_eq!(three.checksums, vec!["a", "b", "c"]);
    let gaps = Release::from_entries(&[entry("Checksum", variant(text("a,,b,")))]).unwrap();
    assert_eq!(gaps.checksums, vec!["a", "", "b", ""]);
    let several =
        Release::from_entries(&[entry("Checksum", list_of(vec![text("a,b"), text("c")]))])
            .unwrap();
    assert_eq!(several.checksums, vec!["a", "b", "c"]);
    let none = Release::from_entries(&[entry("Checksum", list_of(vec![]))]).unwrap();
    assert!(none.checksums.is_empty());
}

#[test]
fn release_refuses_unfit_checksums() {
    let entries = vec![entry("Checksum", text("aaaa"))];
    assert_eq!(mismatch(Release::from_entries(&entries)), ("Checksum".to_string(), Shape::List));
    let entries = vec![entry("Checksum", variant(number(1)))];
    assert_eq!(mismatch(Release::from_entries(&entries)), ("Checksum".to_string(), Shape::Text));
}

#[test]
fn release_drops_trust_bits_without_meaning() {
    let release = Release::from_entries(&[
        entry("TrustFlags", variant(number(0xff))),
        entry("Flags", variant(number(0xff00))),
    ])
    .unwrap();
    assert_eq!(release.trust_flags.bits, 0x3);
    assert_eq!(release.flags.bits, 0xff00);
}

#[test]
fn remote_takes_every_attribute() {
    let entries = vec![
        entry("Agreement", variant(text("agree"))),
        entry("ApprovalRequired", variant(number(1))),
        entry("Checksum", variant(text("cafe"))),
        entry("Enabled", variant(number(1))),
        entry("FilenameCache", variant(text("/var/lib/fwupd/remotes.d/lvfs/metadata.xml.gz"))),
        entry("FilenameSource", variant(text("/etc/fwupd/remotes.d/lvfs.conf"))),
        entry("FirmwareBaseUri", variant(text("https://cdn/"))),
        entry("Keyring", variant(number(4))),
        entry("ModificationTime", variant(number(99))),
        entry("Password", variant(text("secret"))),
        entry("Priority", variant(variant(negative(-3)))),
        entry("RemoteId", variant(text("lvfs"))),
        entry("ReportUri", variant(text("https://report"))),
        entry("Title", variant(text("LVFS"))),
        entry("Type", variant(number(1))),
        entry("Username", variant(text("user"))),
        entry("Uri", variant(text("https://cdn.fwupd.org/downloads/firmware.xml.gz"))),
    ];
    let remote = Remote::from_entries(&entries).unwrap();
    assert_eq!(remote.agreement.as_deref(), Some("agree"));
    assert!(remote.approval_required);
    assert_eq!(remote.checksum.as_deref(), Some("cafe"));
    assert!(remote.enabled);
    assert_eq!(remote.filename_cache, "/var/lib/fwupd/remotes.d/lvfs/metadata.xml.gz");
    assert_eq!(remote.filename_source, "/etc/fwupd/remotes.d/lvfs.conf");
    assert_eq!(remote.firmware_base_uri.as_deref(), Some("https://cdn/"));
    assert_eq!(remote.keyring, KeyringKind::JCAT);
    assert_eq!(remote.kind, RemoteKind::Download);
    assert_eq!(remote.modification_time, 99);
    assert_eq!(remote.password.as_deref(), Some("secret"));
    assert_eq!(remote.priority, -3);
    assert_eq!(remote.remote_id.0, "lvfs");
    assert_eq!(remote.report_uri.as_deref(), Some("https://report"));
    assert_eq!(remote.title, "LVFS");
    assert_eq!(remote.uri.as_deref(), Some("https://cdn.fwupd.org/downloads/firmware.xml.gz"));
    assert_eq!(remote.username.as_deref(), Some("user"));
}

#[test]
fn remote_from_nothing_is_blank() {
    let remote = Remote::from_entries(&[]).unwrap();
    assert!(!remote.enabled);
    assert!(!remote.approval_required);
    assert_eq!(remote.keyring, KeyringKind::NoKeyring);
    assert_eq!(remote.kind, RemoteKind::Unknown);
    assert_eq!(remote.priority, 0);
    assert!(remote.uri.is_none());
    assert_eq!(remote.remote_id.0, "");
    let blank = Remote::default();
    assert_eq!(blank.keyring, KeyringKind::NoKeyring);
    assert_eq!(blank.kind, RemoteKind::Unknown);
    assert!(!blank.enabled);
}

#[test]
fn remote_flags_are_set_by_any_number_but_zero() {
    let remote = Remote::from_entries(&[
        entry("Enabled", variant(number(2))),
        entry("ApprovalRequired", variant(number(0))),
    ])
    .unwrap();
    assert!(remote.enabled);
    assert!(!remote.approval_required);
}

#[test]
fn remote_priority_is_the_first_of_a_list() {
    let remote =
        Remote::from_entries(&[entry("Priority", list_of(vec![negative(7), negative(9)]))])
            .unwrap();
    assert_eq!(remote.priority, 7);
    // the low sixteen bits, as a signed number
    let remote = Remote::from_entries(&[entry("Priority", variant(negative(65537)))]).unwrap();
    assert_eq!(remote.priority, 1);
    let remote = Remote::from_entries(&[entry("Priority", variant(negative(32768)))]).unwrap();
    assert_eq!(remote.priority, -32768);
    let remote = Remote::from_entries(&[entry("Priority", variant(negative(-1)))]).unwrap();
    assert_eq!(remote.priority, -1);
}

#[test]
fn remote_refuses_an_unfit_priority() {
    let entries = vec![entry("Priority", negative(1))];
    assert_eq!(mismatch(Remote::from_entries(&entries)), ("Priority".to_string(), Shape::List));
    let entries = vec![entry("Priority", list_of(vec![]))];
    assert_eq!(mismatch(Remote::from_entries(&entries)), ("Priority".to_string(), Shape::Item));
    let entries = vec![entry("Priority", variant(text("high")))];
    assert_eq!(mismatch(Remote::from_entries(&entries)), ("Priority".to_string(), Shape::Signed));
}

#[test]
fn keyring_kind_codes() {
    assert_eq!(KeyringKind::from(0), KeyringKind::Unknown);
    assert_eq!(KeyringKind::from(1), KeyringKind::NoKeyring);
    assert_eq!(KeyringKind::from(2), KeyringKind::GPG);
    assert_eq!(KeyringKind::from(3), KeyringKind::PKCS7);
    assert_eq!(KeyringKind::from(4), KeyringKind::JCAT);
    assert_eq!(KeyringKind::from(5), KeyringKind::Unknown);
    assert_eq!(KeyringKind::default(), KeyringKind::NoKeyring);
}

#[test]
fn remote_kind_codes() {
    assert_eq!(RemoteKind::from(0), RemoteKind::Unknown);
    assert_eq!(RemoteKind::from(1), RemoteKind::Download);
    assert_eq!(RemoteKind::from(2), RemoteKind::Local);
    assert_eq!(RemoteKind::from(3), RemoteKind::Directory);
    assert_eq!(RemoteKind::from(4), RemoteKind::Unknown);
    assert_eq!(RemoteKind::default(), RemoteKind::Unknown);
}

#[test]
fn signature_extensions() {
    assert_eq!(KeyringKind::JCAT.signature_extension(), ".jcat");
    assert_eq!(KeyringKind::PKCS7.signature_extension(), ".p7b");
    assert_eq!(KeyringKind::GPG.signature_extension(), ".asc");
    assert_eq!(KeyringKind::NoKeyring.signature_extension(), ".asc");
    assert_eq!(KeyringKind::Unknown.signature_extension(), ".asc");
}

#[test]
fn request_takes_every_attribute() {
    let entries = vec![
        entry("AppstreamId", text("org.fwupd.request")),
        entry("Created", number(1_650_000_000)),
        entry("Plugin", text("dfu")),
        entry("RequestKind", number(2)),
        entry("UpdateMessage", text("Unplug and replug the device")),
    ];
    let request = Request::from_entries(&entries);
    assert_eq!(request.appstream_id, "org.fwupd.request");
    assert_eq!(request.created, 1_650_000_000);
    assert_eq!(request.plugin, "dfu");
    assert_eq!(request.request_kind, 2);
    assert_eq!(request.update_message, "Unplug and replug the device");
}

#[test]
fn request_leaves_unfit_values_out() {
    let entries = vec![
        entry("AppstreamId", number(1)),
        entry("Created", text("then")),
        entry("Plugin", text("dfu")),
        entry("RequestKind", number(0x1_0000_0000)),
        entry("UpdateMessage", nothing()),
        entry("Other", text("x")),
    ];
    let request = Request::from_entries(&entries);
    assert_eq!(request.appstream_id, "");
    assert_eq!(request.created, 0);
    assert_eq!(request.plugin, "dfu");
    assert_eq!(request.request_kind, 0);
    assert_eq!(request.update_message, "");
    let request = Request::from_entries(&[entry("RequestKind", number(0xffff_ffff))]);
    assert_eq!(request.request_kind, u32::MAX);
}

#[test]
fn request_keeps_what_it_has_when_a_later_value_is_unfit() {
    let entries = vec![entry("Plugin", text("dfu")), entry("Plugin", number(1))];
    assert_eq!(Request::from_entries(&entries).plugin, "dfu");
    let entries = vec![entry("Plugin", text("dfu")), entry("Plugin", text("uefi"))];
    assert_eq!(Request::from_entries(&entries).plugin, "uefi");
}
