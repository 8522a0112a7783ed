//! Notifications: what the daemon tells its listeners when something
//! changes.
//!
//! Whoever listens on the bus hands over each notification as a
//! [`RawSignal`]: the name of the member and the arguments in one of the few
//! shapes that the daemon uses. This module decides what the notification
//! means. A member that is not known is passed over, and so is a
//! notification whose arguments do not fit its member: neither ends the
//! listening.

use crate::device::{decode_device, Device, DeviceModel};
use crate::request::{decode_request, Request, RequestModel};
use crate::text::str_eq;
use crate::wire::{entries_view, texts_of, Entry, WireModel};
use vstd::prelude::*;
use vstd::string::*;

verus! {

/// The arguments of a notification.
#[derive(Debug)]
pub enum SignalBody {
    /// No argument.
    Empty,
    /// One dictionary of keyed values.
    Entries(Vec<Entry>),
    /// The name of an interface, a dictionary of the properties that
    /// changed, and the names of those that are no longer valid.
    Properties { interface: String, changed: Vec<Entry>, invalidated: Vec<String> },
    /// Arguments of any other shape.
    Other,
}

/// The mathematical content of a [`SignalBody`].
pub ghost enum SignalBodyModel {
    Empty,
    Entries(Seq<(Seq<char>, WireModel)>),
    Properties {
        interface: Seq<char>,
        changed: Seq<(Seq<char>, WireModel)>,
        invalidated: Seq<Seq<char>>,
    },
    Other,
}

impl View for SignalBody {
    type V = SignalBodyModel;

    open spec fn view(&self) -> SignalBodyModel {
        match self {
            SignalBody::Empty => SignalBodyModel::Empty,
            SignalBody::Entries(entries) => SignalBodyModel::Entries(entries_view(entries@)),
            SignalBody::Properties { interface, changed, invalidated } => {
                SignalBodyModel::Properties {
                    interface: interface@,
                    changed: entries_view(changed@),
                    invalidated: texts_of(invalidated@),
                }
            },
            SignalBody::Other => SignalBodyModel::Other,
        }
    }
}

/// The shapes that the arguments of a notification come in.
#[derive(Clone, Copy, Debug, PartialEq, Eq, Structural)]
pub enum BodyShape {
    /// No argument.
    Empty,
    /// One dictionary of keyed values.
    Entries,
    /// The name of an interface, a dictionary, and a list of names.
    Properties,
    /// Anything else.
    Other,
}

/// The shape of arguments with the given type signature.
pub open spec fn body_shape_of(signature: Seq<char>) -> BodyShape {
    if signature == ""@ {
        BodyShape::Empty
    } else if signature == "a{sv}"@ {
        BodyShape::Entries
    } else if signature == "sa{sv}as"@ {
        BodyShape::Properties
    } else {
        BodyShape::Other
    }
}

/// Tells from the type signature of the arguments of a notification in
/// which shape they are to be handed over, see [`SignalBody`].
pub fn body_shape(signature: &str) -> (shape: BodyShape)
    ensures
        shape == body_shape_of(signature@),
{
    if str_eq(signature, "") {
        BodyShape::Empty
    } else if str_eq(signature, "a{sv}") {
        BodyShape::Entries
    } else if str_eq(signature, "sa{sv}as") {
        BodyShape::Properties
    } else {
        BodyShape::Other
    }
}

/// A notification as it arrives.
#[derive(Debug)]
pub struct RawSignal {
    /// The name of the member.
    pub member: String,
    /// The arguments.
    pub body: SignalBody,
}

/// The mathematical content of a [`RawSignal`].
pub ghost struct RawSignalModel {
    pub member: Seq<char>,
    pub body: SignalBodyModel,
}

impl View for RawSignal {
    type V = RawSignalModel;

    open spec fn view(&self) -> RawSignalModel {
        RawSignalModel { member: self.member@, body: self.body@ }
    }
}

/// A notification of the daemon.
#[derive(Debug)]
pub enum Signal {
    /// Something on the interface has changed, or the number of devices.
    Changed,
    /// A device has been added.
    DeviceAdded(Device),
    /// A device has been changed.
    DeviceChanged(Device),
    /// A device has been removed.
    DeviceRemoved(Device),
    /// A device asks for the user.
    DeviceRequest(Request),
    /// Properties have changed.
    PropertiesChanged { interface: String, changed: Vec<Entry>, invalidated: Vec<String> },
}

/// The mathematical content of a [`Signal`].
pub ghost enum SignalModel {
    Changed,
    DeviceAdded(DeviceModel),
    DeviceChanged(DeviceModel),
    DeviceRemoved(DeviceModel),
    DeviceRequest(RequestModel),
    PropertiesChanged {
        interface: Seq<char>,
        changed: Seq<(Seq<char>, WireModel)>,
        invalidated: Seq<Seq<char>>,
    },
}

impl View for Signal {
    type V = SignalModel;

    open spec fn view(&self) -> SignalModel {
        match self {
            Signal::Changed => SignalModel::Changed,
            Signal::DeviceAdded(device) => SignalModel::DeviceAdded(device@),
            Signal::DeviceChanged(device) => SignalModel::DeviceChanged(device@),
            Signal::DeviceRemoved(device) => SignalModel::DeviceRemoved(device@),
            Signal::DeviceRequest(request) => SignalModel::DeviceRequest(request@),
            Signal::PropertiesChanged { interface, changed, invalidated } => {
                SignalModel::PropertiesChanged {
                    interface: interface@,
                    changed: entries_view(changed@),
                    invalidated: texts_of(invalidated@),
                }
            },
        }
    }
}

/// What a notification turned out to be.
#[derive(Debug)]
pub enum Decoded {
    /// A notification of the daemon.
    Signal(Signal),
    /// The member is known, the arguments do not fit it.
    Malformed,
    /// The member is not known.
    Unknown,
}

/// The mathematical content of a [`Decoded`].
pub ghost enum DecodedModel {
    Signal(SignalModel),
    Malformed,
    Unknown,
}

impl View for Decoded {
    type V = DecodedModel;

    open spec fn view(&self) -> DecodedModel {
        match self {
            Decoded::Signal(signal) => DecodedModel::Signal(signal@),
            Decoded::Malformed => DecodedModel::Malformed,
            Decoded::Unknown => DecodedModel::Unknown,
        }
    }
}

/// True of the names of the members that are known.
pub open spec fn recognized(member: Seq<char>) -> bool {
    member == "Changed"@ || member == "DeviceAdded"@ || member == "DeviceChanged"@ || member
        == "DeviceRemoved"@ || member == "DeviceRequest"@ || member == "PropertiesChanged"@
}

/// The device that the arguments of a notification describe.
pub open spec fn device_in(body: SignalBodyModel) -> Option<DeviceModel> {
    match body {
        SignalBodyModel::Entries(entries) => match decode_device(entries) {
            Ok(device) => Some(device),
            Err(_) => None,
        },
        _ => None,
    }
}

/// What a notification means. `Changed` carries nothing, whatever its
/// arguments. The three notifications about a device carry a dictionary
/// that describes the device, `DeviceRequest` one that describes the
/// request, and `PropertiesChanged` its three arguments.
pub open spec fn decoded_of(raw: RawSignalModel) -> DecodedModel {
    if raw.member == "Changed"@ {
        DecodedModel::Signal(SignalModel::Changed)
    } else if raw.member == "DeviceAdded"@ {
        match device_in(raw.body) {
            Some(device) => DecodedModel::Signal(SignalModel::DeviceAdded(device)),
            None => DecodedModel::Malformed,
        }
    } else if raw.member == "DeviceChanged"@ {
        match device_in(raw.body) {
            Some(device) => DecodedModel::Signal(SignalModel::DeviceChanged(device)),
            None => DecodedModel::Malformed,
        }
    } else if raw.member == "DeviceRemoved"@ {
        match device_in(raw.body) {
            Some(device) => DecodedModel::Signal(SignalModel::DeviceRemoved(device)),
            None => DecodedModel::Malformed,
        }
    } else if raw.member == "DeviceRequest"@ {
        match raw.body {
            SignalBodyModel::Entries(entries) => DecodedModel::Signal(
                SignalModel::DeviceRequest(decode_request(entries)),
            ),
            _ => DecodedModel::Malformed,
        }
    } else if raw.member == "PropertiesChanged"@ {
        match raw.body {
            SignalBodyModel::Properties { interface, changed, invalidated } => {
                DecodedModel::Signal(
                    SignalModel::PropertiesChanged { interface, changed, invalidated },
                )
            },
            _ => DecodedModel::Malformed,
        }
    } else {
        DecodedModel::Unknown
    }
}

/// What a listener yields for one notification, if anything.
pub open spec fn signal_of(raw: RawSignalModel) -> Option<SignalModel> {
    match decoded_of(raw) {
        DecodedModel::Signal(signal) => Some(signal),
        _ => None,
    }
}

/// The contents of a list of notifications, each with the cancellation flag
/// as it stood on arrival.
pub open spec fn arrivals_view(events: Seq<(bool, RawSignal)>) -> Seq<(bool, RawSignalModel)> {
    Seq::new(events.len(), |i: int| (events[i].0, events[i].1@))
}

/// The contents of a list of signals.
pub open spec fn signals_view(signals: Seq<Signal>) -> Seq<SignalModel> {
    Seq::new(signals.len(), |i: int| signals[i]@)
}

/// What is heard of notifications that arrive one after another, each with
/// the cancellation flag as it stands on arrival: the signals of those that
/// arrive before the flag is first seen set, in the order of arrival.
pub open spec fn heard(events: Seq<(bool, RawSignalModel)>) -> Seq<SignalModel>
    decreases events.len(),
{
    if events.len() == 0 {
        Seq::empty()
    } else if events[0].0 {
        Seq::empty()
    } else {
        match signal_of(events[0].1) {
            Some(signal) => seq![signal] + heard(events.skip(1)),
            None => heard(events.skip(1)),
        }
    }
}

/// What is heard of two runs of notifications, one after the other, is what
/// is heard of the first followed by what is heard of the second, as long as
/// the listener is not cancelled during the first: what is yielded keeps the
/// order of arrival.
pub proof fn lemma_heard_keeps_order(
    first: Seq<(bool, RawSignalModel)>,
    second: Seq<(bool, RawSignalModel)>,
)
    requires
        forall|i: int| 0 <= i < first.len() ==> !(#[trigger] first[i]).0,
    ensures
        heard(first + second) == heard(first) + heard(second),
    decreases first.len(),
{
    if first.len() == 0 {
        assert(first + second =~= second);
        assert(Seq::<SignalModel>::empty() + heard(second) =~= heard(second));
    } else {
        let all = first + second;
        assert(all[0] == first[0]);
        assert(all.skip(1) =~= first.skip(1) + second);
        assert forall|i: int| 0 <= i < first.skip(1).len() implies !(#[trigger] first.skip(
            1,
        )[i]).0 by {
            assert(first.skip(1)[i] == first[i + 1]);
        }
        lemma_heard_keeps_order(first.skip(1), second);
        match signal_of(first[0].1) {
            Some(signal) => {
                assert(seq![signal] + (heard(first.skip(1)) + heard(second)) =~= (seq![signal]
                    + heard(first.skip(1))) + heard(second));
            },
            None => {},
        }
    }
}

/// A notification whose member is not known is left out, and nothing else
/// changes: the signals before it and after it are heard as if it had not
/// arrived.
pub proof fn lemma_unknown_member_is_skipped(
    before: Seq<(bool, RawSignalModel)>,
    odd: RawSignalModel,
    after: Seq<(bool, RawSignalModel)>,
)
    requires
        !recognized(odd.member),
    ensures
        decoded_of(odd) == DecodedModel::Unknown,
        heard(before + seq![(false, odd)] + after) == heard(before + after),
    decreases before.len(),
{
    let all = before + seq![(false, odd)] + after;
    if before.len() == 0 {
        assert(all[0] == (false, odd));
        assert(all.skip(1) =~= after);
        assert(before + after =~= after);
    } else {
        assert(all[0] == before[0]);
        assert((before + after)[0] == before[0]);
        assert(all.skip(1) =~= before.skip(1) + seq![(false, odd)] + after);
        assert((before + after).skip(1) =~= before.skip(1) + after);
        lemma_unknown_member_is_skipped(before.skip(1), odd, after);
    }
}

/// A notification is passed over exactly where its member is not known or
/// its arguments do not fit; `Changed` fits whatever its arguments.
pub proof fn lemma_known_member_is_yielded(raw: RawSignalModel)
    ensures
        decoded_of(raw) is Unknown <==> !recognized(raw.member),
        signal_of(raw).is_some() <==> decoded_of(raw) is Signal,
        raw.member == "Changed"@ ==> signal_of(raw) == Some(SignalModel::Changed),
{
}

/// Once the cancellation flag is seen set, nothing more is heard: what
/// arrives with it and after it adds nothing, and what was heard before
/// stays as it was.
pub proof fn lemma_cancel_ends_listening(
    before: Seq<(bool, RawSignalModel)>,
    raw: RawSignalModel,
    after: Seq<(bool, RawSignalModel)>,
)
    ensures
        heard(before + seq![(true, raw)] + after) == heard(before + seq![(true, raw)]),
        (forall|i: int| 0 <= i < before.len() ==> !(#[trigger] before[i]).0) ==> heard(
            before + seq![(true, raw)] + after,
        ) == heard(before),
    decreases before.len(),
{
    let all = before + seq![(true, raw)] + after;
    let cut = before + seq![(true, raw)];
    if before.len() == 0 {
        assert(all[0] == (true, raw));
        assert(cut[0] == (true, raw));
    } else {
        assert(all[0] == before[0]);
        assert(cut[0] == before[0]);
        assert(all.skip(1) =~= before.skip(1) + seq![(true, raw)] + after);
        assert(cut.skip(1) =~= before.skip(1) + seq![(true, raw)]);
        lemma_cancel_ends_listening(before.skip(1), raw, after);
    }
    if forall|i: int| 0 <= i < before.len() ==> !(#[trigger] before[i]).0 {
        lemma_heard_keeps_order(before, seq![(true, raw)]);
        assert(seq![(true, raw)][0] == (true, raw));
        assert(heard(before) + Seq::<SignalModel>::empty() =~= heard(before));
    }
}

/// Decodes the device that a notification carries.
fn device_from(body: SignalBody) -> (device: Option<Device>)
    ensures
        match device {
            Some(found) => device_in(body@) == Some(found@),
            None => device_in(body@).is_none(),
        },
{
    match body {
        SignalBody::Entries(entries) => match Device::from_entries(entries.as_slice()) {
            Ok(device) => Some(device),
            Err(_) => None,
        },
        _ => None,
    }
}

/// Decides what a notification means, see [`decoded_of`].
pub fn decode_signal(raw: RawSignal) -> (decoded: Decoded)
    ensures
        decoded@ == decoded_of(raw@),
{
    let RawSignal { member, body } = raw;
    let name = member.as_str();
    if str_eq(name, "Changed") {
        Decoded::Signal(Signal::Changed)
    } else if str_eq(name, "DeviceAdded") {
        match device_from(body) {
            Some(device) => Decoded::Signal(Signal::DeviceAdded(device)),
            None => Decoded::Malformed,
        }
    } else if str_eq(name, "DeviceChanged") {
        match device_from(body) {
            Some(device) => Decoded::Signal(Signal::DeviceChanged(device)),
            None => Decoded::Malformed,
        }
    } else if str_eq(name, "DeviceRemoved") {
        match device_from(body) {
            Some(device) => Decoded::Signal(Signal::DeviceRemoved(device)),
            None => Decoded::Malformed,
        }
    } else if str_eq(name, "DeviceRequest") {
        match body {
            SignalBody::Entries(entries) => Decoded::Signal(
                Signal::DeviceRequest(Request::from_entries(entries.as_slice())),
            ),
            _ => Decoded::Malformed,
        }
    } else if str_eq(name, "PropertiesChanged") {
        match body {
            SignalBody::Properties { interface, changed, invalidated } => Decoded::Signal(
                Signal::PropertiesChanged { interface, changed, invalidated },
            ),
            _ => Decoded::Malformed,
        }
    } else {
        Decoded::Unknown
    }
}

/// What a listener does with one notification.
#[derive(Debug)]
pub enum ListenStep {
    /// Stop listening: the listener was cancelled.
    End,
    /// Wait for the next notification: the member of this one is not
    /// known, which is no fault.
    Skip,
    /// Wait for the next notification: the arguments of this one do not fit
    /// its member, which is worth a line in the log.
    Drop,
    /// Yield the signal, then wait for the next notification.
    Yield(Signal),
}

/// Takes one notification. The cancellation flag is read as it stands when
/// the notification arrives: once it is set the listening ends, whatever
/// arrived. Otherwise the signal of the notification is yielded, if it has
/// one; a notification without one never ends the listening.
pub fn listen_step(cancelled: bool, raw: RawSignal) -> (action: ListenStep)
    ensures
        match action {
            ListenStep::End => cancelled,
            ListenStep::Skip => !cancelled && decoded_of(raw@) == DecodedModel::Unknown,
            ListenStep::Drop => !cancelled && decoded_of(raw@) == DecodedModel::Malformed,
            ListenStep::Yield(signal) => !cancelled && decoded_of(raw@) == DecodedModel::Signal(
                signal@,
            ),
        },
{
    if cancelled {
        return ListenStep::End;
    }
    match decode_signal(raw) {
        Decoded::Signal(signal) => ListenStep::Yield(signal),
        Decoded::Malformed => ListenStep::Drop,
        Decoded::Unknown => ListenStep::Skip,
    }
}

/// What is heard of notifications that arrived one after another, each with
/// the cancellation flag as it stood on arrival, see [`heard`]. What arrives
/// after the flag was seen set is not looked at.
pub fn replay(events: Vec<(bool, RawSignal)>) -> (signals: Vec<Signal>)
    ensures
        signals_view(signals@) == heard(arrivals_view(events@)),
{
    let ghost all = arrivals_view(events@);
    let mut signals: Vec<Signal> = Vec::new();
    let mut ended = false;
    assert(all.skip(0) =~= all);
    assert(signals_view(signals@) + heard(all) =~= heard(all));
    for arrival in it: events
        invariant
            it.seq() == events@,
            all == arrivals_view(events@),
            ended ==> signals_view(signals@) == heard(all),
            !ended ==> signals_view(signals@) + heard(all.skip(it.index() as int)) == heard(all),
    {
        let ghost rest = all.skip(it.index() as int);
        let ghost before = signals_view(signals@);
        proof {
            assert(rest[0] == all[it.index() as int]);
            assert(rest.skip(1) =~= all.skip(it.index() + 1));
        }
        let (cancelled, raw) = arrival;
        if !ended {
            match listen_step(cancelled, raw) {
                ListenStep::End => {
                    ended = true;
                    assert(before + Seq::<SignalModel>::empty() =~= before);
                },
                ListenStep::Skip => {},
                ListenStep::Drop => {},
                ListenStep::Yield(signal) => {
                    signals.push(signal);
                    assert(signals_view(signals@) =~= before.push(signal@));
                    assert(before.push(signal@) + heard(rest.skip(1)) =~= before + (seq![
                        signal@,
                    ] + heard(rest.skip(1))));
                },
            }
        }
    }
    assert(all.skip(events@.len() as int) =~= Seq::empty());
    assert(signals_view(signals@) + Seq::<SignalModel>::empty() =~= signals_view(signals@));
    signals
}

} // verus!
