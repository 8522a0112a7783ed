use fwupd_dbus::{
    body_shape, decode_signal, listen_step, replay, BodyShape, Decoded, Entry, ListenStep,
    RawSignal, Signal, SignalBody, WireValue,
};

fn text(s: &str) -> WireValue {
    WireValue { text: Some(s.to_string()), unsigned: None, signed: None, items: None }
}

fn number(n: u64) -> WireValue {
    WireValue { text: None, unsigned: Some(n), signed: Some(n as i64), items: None }
}

fn entry(key: &str, value: WireValue) -> Entry {
    (key.to_string(), value)
}

fn raw(member: &str, body: SignalBody) -> RawSignal {
    RawSignal { member: member.to_string(), body }
}

fn device(name: &str) -> SignalBody {
    SignalBody::Entries(vec![entry("Name", text(name)), entry("DeviceId", text("id-1"))])
}

fn properties() -> SignalBody {
    SignalBody::Properties {
        interface: "org.freedesktop.fwupd".to_string(),
        changed: vec![entry("Percentage", number(40)), entry("Status", number(7))],
        invalidated: vec!["Tainted".to_string()],
    }
}

fn label(signal: &Signal) -> String {
    match signal {
        Signal::Changed => "changed".to_string(),
        Signal::DeviceAdded(device) => format!("added {}", device.name),
        Signal::DeviceChanged(device) => format!("changed {}", device.name),
        Signal::DeviceRemoved(device) => format!("removed {}", device.name),
        Signal::DeviceRequest(request) => format!("request {}", request.update_message),
        Signal::PropertiesChanged { interface, changed, invalidated } => {
            format!("properties {} {} {}", interface, changed.len(), invalidated.len())
        }
    }
}

fn labels(signals: &[Signal]) -> Vec<String> {
    signals.iter().map(label).collect()
}

fn decoded(member: &str, body: SignalBody) -> String {
    match decode_signal(raw(member, body)) {
        Decoded::Signal(signal) => label(&signal),
        Decoded::Malformed => "malformed".to_string(),
        Decoded::Unknown => "unknown".to_string(),
    }
}

#[test]
fn changed_carries_nothing() {
    assert_eq!(decoded("Changed", SignalBody::Empty), "changed");
    assert_eq!(decoded("Changed", SignalBody::Other), "changed");
    assert_eq!(decoded("Changed", device("x")), "changed");
}

#[test]
fn device_notifications_carry_the_device() {
    assert_eq!(decoded("DeviceAdded", device("dock")), "added dock");
    assert_eq!(decoded("DeviceChanged", device("dock")), "changed dock");
    assert_eq!(decoded("DeviceRemoved", device("dock")), "removed dock");
    match decode_signal(raw("DeviceAdded", device("dock"))) {
        Decoded::Signal(Signal::DeviceAdded(device)) => {
            assert_eq!(device.name, "dock");
            assert_eq!(device.device_id.0, "id-1");
        }
        other => panic!("{:?}", other),
    }
}

#[test]
fn device_request_carries_the_request() {
    let body = SignalBody::Entries(vec![
        entry("AppstreamId", text("org.fwupd.request")),
        entry("Created", number(12)),
        entry("Plugin", text("dfu")),
        entry("RequestKind", number(2)),
        entry("UpdateMessage", text("replug")),
    ]);
    match decode_signal(raw("DeviceRequest", body)) {
        Decoded::Signal(Signal::DeviceRequest(request)) => {
            assert_eq!(request.appstream_id, "org.fwupd.request");
            assert_eq!(request.created, 12);
            assert_eq!(request.plugin, "dfu");
            assert_eq!(request.request_kind, 2);
            assert_eq!(request.update_message, "replug");
        }
        other => panic!("{:?}", other),
    }
}

#[test]
fn properties_changed_carries_its_three_arguments() {
    match decode_signal(raw("PropertiesChanged", properties())) {
        Decoded::Signal(Signal::PropertiesChanged { interface, changed, invalidated }) => {
            assert_eq!(interface, "org.freedesktop.fwupd");
            assert_eq!(changed.len(), 2);
            assert_eq!(changed[0].0, "Percentage");
            assert_eq!(changed[0].1.unsigned, Some(40));
            assert_eq!(changed[1].0, "Status");
            assert_eq!(invalidated, vec!["Tainted"]);
        }
        other => panic!("{:?}", other),
    }
}

#[test]
fn arguments_that_do_not_fit_are_malformed() {
    assert_eq!(decoded("DeviceAdded", SignalBody::Empty), "malformed");
    assert_eq!(decoded("DeviceAdded", SignalBody::Other), "malformed");
    assert_eq!(decoded("DeviceChanged", properties()), "malformed");
    assert_eq!(
        decoded("DeviceRemoved", SignalBody::Entries(vec![entry("Name", number(1))])),
        "malformed"
    );
    assert_eq!(decoded("DeviceRequest", SignalBody::Empty), "malformed");
    assert_eq!(decoded("DeviceRequest", properties()), "malformed");
    assert_eq!(decoded("PropertiesChanged", SignalBody::Empty), "malformed");
    assert_eq!(decoded("PropertiesChanged", device("x")), "malformed");
}

#[test]
fn members_that_are_not_known() {
    assert_eq!(decoded("DeviceExploded", device("x")), "unknown");
    assert_eq!(decoded("", SignalBody::Empty), "unknown");
    assert_eq!(decoded("changed", SignalBody::Empty), "unknown");
    assert_eq!(decoded("Changed ", SignalBody::Empty), "unknown");
    assert_eq!(decoded("NameOwnerChanged", SignalBody::Other), "unknown");
}

#[test]
fn listener_omits_the_unknown_member_and_keeps_the_order() {
    let events = vec![
        (false, raw("DeviceAdded", device("a"))),
        (false, raw("Changed", SignalBody::Empty)),
        (false, raw("DeviceExploded", device("b"))),
        (false, raw("DeviceRemoved", device("c"))),
        (false, raw("PropertiesChanged", properties())),
        (false, raw("DeviceChanged", device("d"))),
    ];
    assert_eq!(
        labels(&replay(events)),
        vec![
            "added a",
            "changed",
            "removed c",
            "properties org.freedesktop.fwupd 2 1",
            "changed d"
        ]
    );
}

#[test]
fn listener_drops_malformed_notifications_and_goes_on() {
    let events = vec![
        (false, raw("DeviceAdded", SignalBody::Other)),
        (false, raw("DeviceAdded", device("a"))),
        (false, raw("DeviceChanged", SignalBody::Entries(vec![entry("Flags", text("x"))]))),
        (false, raw("DeviceChanged", device("b"))),
    ];
    assert_eq!(labels(&replay(events)), vec!["added a", "changed b"]);
}

#[test]
fn cancellation_ends_the_listening() {
    let events = vec![
        (false, raw("DeviceAdded", device("a"))),
        (true, raw("DeviceAdded", device("b"))),
        (false, raw("DeviceAdded", device("c"))),
    ];
    assert_eq!(labels(&replay(events)), vec!["added a"]);
    let events = vec![(true, raw("Changed", SignalBody::Empty))];
    assert!(replay(events).is_empty());
    assert!(replay(Vec::new()).is_empty());
}

#[test]
fn listen_step_by_step() {
    assert!(matches!(listen_step(true, raw("Changed", SignalBody::Empty)), ListenStep::End));
    assert!(matches!(listen_step(true, raw("Nonsense", SignalBody::Empty)), ListenStep::End));
    assert!(matches!(listen_step(false, raw("Nonsense", SignalBody::Empty)), ListenStep::Skip));
    assert!(matches!(
        listen_step(false, raw("DeviceAdded", SignalBody::Empty)),
        ListenStep::Drop
    ));
    assert!(matches!(listen_step(true, raw("DeviceAdded", SignalBody::Empty)), ListenStep::End));
    assert!(matches!(
        listen_step(false, raw("Changed", SignalBody::Empty)),
        ListenStep::Yield(Signal::Changed)
    ));
    match listen_step(false, raw("DeviceRemoved", device("gone"))) {
        ListenStep::Yield(Signal::DeviceRemoved(device)) => assert_eq!(device.name, "gone"),
        other => panic!("{:?}", other),
    }
}

#[test]
fn body_shapes_by_signature() {
    assert_eq!(body_shape(""), BodyShape::Empty);
    assert_eq!(body_shape("a{sv}"), BodyShape::Entries);
    assert_eq!(body_shape("sa{sv}as"), BodyShape::Properties);
    assert_eq!(body_shape("s"), BodyShape::Other);
    assert_eq!(body_shape("a{ss}"), BodyShape::Other);
    assert_eq!(body_shape("a{sv}s"), BodyShape::Other);
    assert_eq!(body_shape("(a{sv})"), BodyShape::Other);
}
