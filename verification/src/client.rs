//! What the client decides around its calls to the daemon: how replies
//! are read, which remote a release belongs to, and with which options an
//! installation is asked for.

use crate::device::{decode_device, Device, DeviceModel};
use crate::flags::{DeviceFlags, InstallFlags};
use crate::release::{decode_release, Release, ReleaseModel};
use crate::remote::{decode_remote, Remote, RemoteId, RemoteModel};
use crate::text::str_eq;
use crate::wire::{entries_view, Entry, MismatchModel, WireModel};
use crate::{Error, Status};
use vstd::prelude::*;
use vstd::string::*;

verus! {

/// The reason that is given for an installation that the user asked for.
pub const USER_REASON: &'static str = "(user)";

/// The name that the client gives itself towards remotes, from the version
/// of the daemon.
pub fn client_name(daemon_version: &str) -> (name: String)
    ensures
        name@ == "fwupd/"@ + daemon_version@,
{
    let mut name = "fwupd/".to_owned();
    name.append(daemon_version);
    name
}

/// The state of the daemon from the value of its `Status` property: the
/// lowest eight bits are the code.
pub fn status_from(value: u32) -> (status: Status)
    ensures
        status == Status::of_code(value as u8),
{
    Status::from(#[verifier::truncate] (value as u8))
}

/// The completion of the daemon's job from the value of its `Percentage`
/// property: the lowest eight bits.
pub fn percentage_from(value: u32) -> (percentage: u8)
    ensures
        percentage == value as u8,
{
    #[verifier::truncate]
    (value as u8)
}

/// The contents of the dictionaries of a reply.
pub open spec fn records_view(records: Seq<Vec<Entry>>) -> Seq<Seq<(Seq<char>, WireModel)>> {
    Seq::new(records.len(), |i: int| entries_view(records[i]@))
}

/// The contents of a list of devices.
pub open spec fn devices_view(list: Seq<Device>) -> Seq<DeviceModel> {
    Seq::new(list.len(), |i: int| list[i]@)
}

/// The devices that a reply describes, one dictionary each. The first
/// dictionary that does not decode is the error.
pub open spec fn decode_devices(records: Seq<Seq<(Seq<char>, WireModel)>>) -> Result<
    Seq<DeviceModel>,
    MismatchModel,
>
    decreases records.len(),
{
    if records.len() == 0 {
        Ok(Seq::empty())
    } else {
        match decode_devices(records.drop_last()) {
            Ok(front) => match decode_device(records.last()) {
                Ok(device) => Ok(front.push(device)),
                Err(e) => Err(e),
            },
            Err(e) => Err(e),
        }
    }
}

/// Once a reply has failed to decode, what follows changes nothing.
pub proof fn lemma_decode_devices_stops(records: Seq<Seq<(Seq<char>, WireModel)>>, n: int)
    requires
        0 <= n <= records.len(),
        decode_devices(records.take(n)).is_err(),
    ensures
        decode_devices(records) == decode_devices(records.take(n)),
    decreases records.len(),
{
    if n < records.len() {
        assert(records.drop_last().take(n) =~= records.take(n));
        lemma_decode_devices_stops(records.drop_last(), n);
    } else {
        assert(records.take(n) =~= records);
    }
}

/// Decodes the devices in the reply to `method`, see [`decode_devices`].
pub fn devices_from(method: &str, records: &[Vec<Entry>]) -> (out: Result<Vec<Device>, Error>)
    ensures
        match out {
            Ok(list) => decode_devices(records_view(records@)) == Ok::<
                Seq<DeviceModel>,
                MismatchModel,
            >(devices_view(list@)),
            Err(error) => {
                &&& error matches Error::ArgumentMismatch(name, mismatch)
                &&& name@ == method@
                &&& decode_devices(records_view(records@)) == Err::<
                    Seq<DeviceModel>,
                    MismatchModel,
                >(mismatch@)
            },
        },
{
    let ghost all = records_view(records@);
    let mut list: Vec<Device> = Vec::new();
    let mut i: usize = 0;
    assert(all.take(0) =~= Seq::empty());
    assert(devices_view(list@) =~= Seq::empty());
    while i < records.len()
        invariant
            i <= records.len(),
            all == records_view(records@),
            decode_devices(all.take(i as int)) == Ok::<Seq<DeviceModel>, MismatchModel>(
                devices_view(list@),
            ),
        decreases records.len() - i,
    {
        proof {
            assert(all.take(i + 1).drop_last() =~= all.take(i as int));
            assert(all.take(i + 1).last() == entries_view(records@[i as int]@));
        }
        match Device::from_entries(records[i].as_slice()) {
            Ok(device) => {
                let ghost before = devices_view(list@);
                list.push(device);
                assert(devices_view(list@) =~= before.push(device@));
            },
            Err(mismatch) => {
                proof {
                    lemma_decode_devices_stops(all, i + 1);
                }
                return Err(Error::ArgumentMismatch(method.to_owned(), mismatch));
            },
        }
        i += 1;
    }
    assert(all.take(records.len() as int) =~= all);
    Ok(list)
}

/// The contents of a list of releases.
pub open spec fn releases_view(list: Seq<Release>) -> Seq<ReleaseModel> {
    Seq::new(list.len(), |i: int| list[i]@)
}

/// The releases that a reply describes, one dictionary each. The first
/// dictionary that does not decode is the error.
pub open spec fn decode_releases(records: Seq<Seq<(Seq<char>, WireModel)>>) -> Result<
    Seq<ReleaseModel>,
    MismatchModel,
>
    decreases records.len(),
{
    if records.len() == 0 {
        Ok(Seq::empty())
    } else {
        match decode_releases(records.drop_last()) {
            Ok(front) => match decode_release(records.last()) {
                Ok(release) => Ok(front.push(release)),
                Err(e) => Err(e),
            },
            Err(e) => Err(e),
        }
    }
}

/// Once a reply has failed to decode, what follows changes nothing.
pub proof fn lemma_decode_releases_stops(records: Seq<Seq<(Seq<char>, WireModel)>>, n: int)
    requires
        0 <= n <= records.len(),
        decode_releases(records.take(n)).is_err(),
    ensures
        decode_releases(records) == decode_releases(records.take(n)),
    decreases records.len(),
{
    if n < records.len() {
        assert(records.drop_last().take(n) =~= records.take(n));
        lemma_decode_releases_stops(records.drop_last(), n);
    } else {
        assert(records.take(n) =~= records);
    }
}

/// Decodes the releases in the reply to `method`, see [`decode_releases`].
pub fn releases_from(method: &str, records: &[Vec<Entry>]) -> (out: Result<Vec<Release>, Error>)
    ensures
        match out {
            Ok(list) => decode_releases(records_view(records@)) == Ok::<
                Seq<ReleaseModel>,
                MismatchModel,
            >(releases_view(list@)),
            Err(error) => {
                &&& error matches Error::ArgumentMismatch(name, mismatch)
                &&& name@ == method@
                &&& decode_releases(records_view(records@)) == Err::<
                    Seq<ReleaseModel>,
                    MismatchModel,
                >(mismatch@)
            },
        },
{
    let ghost all = records_view(records@);
    let mut list: Vec<Release> = Vec::new();
    let mut i: usize = 0;
    assert(all.take(0) =~= Seq::empty());
    assert(releases_view(list@) =~= Seq::empty());
    while i < records.len()
        invariant
            i <= records.len(),
            all == records_view(records@),
            decode_releases(all.take(i as int)) == Ok::<Seq<ReleaseModel>, MismatchModel>(
                releases_view(list@),
            ),
        decreases records.len() - i,
    {
        proof {
            assert(all.take(i + 1).drop_last() =~= all.take(i as int));
            assert(all.take(i + 1).last() == entries_view(records@[i as int]@));
        }
        match Release::from_entries(records[i].as_slice()) {
            Ok(release) => {
                let ghost before = releases_view(list@);
                list.push(release);
                assert(releases_view(list@) =~= before.push(release@));
            },
            Err(mismatch) => {
                proof {
                    lemma_decode_releases_stops(all, i + 1);
                }
                return Err(Error::ArgumentMismatch(method.to_owned(), mismatch));
            },
        }
        i += 1;
    }
    assert(all.take(records.len() as int) =~= all);
    Ok(list)
}

/// The contents of a list of remotes.
pub open spec fn remotes_view(list: Seq<Remote>) -> Seq<RemoteModel> {
    Seq::new(list.len(), |i: int| list[i]@)
}

/// The remotes that a reply describes, one dictionary each. The first
/// dictionary that does not decode is the error.
pub open spec fn decode_remotes(records: Seq<Seq<(Seq<char>, WireModel)>>) -> Result<
    Seq<RemoteModel>,
    MismatchModel,
>
    decreases records.len(),
{
    if records.len() == 0 {
        Ok(Seq::empty())
    } else {
        match decode_remotes(records.drop_last()) {
            Ok(front) => match decode_remote(records.last()) {
                Ok(remote) => Ok(front.push(remote)),
                Err(e) => Err(e),
            },
            Err(e) => Err(e),
        }
    }
}

/// Once a reply has failed to decode, what follows changes nothing.
pub proof fn lemma_decode_remotes_stops(records: Seq<Seq<(Seq<char>, WireModel)>>, n: int)
    requires
        0 <= n <= records.len(),
        decode_remotes(records.take(n)).is_err(),
    ensures
        decode_remotes(records) == decode_remotes(records.take(n)),
    decreases records.len(),
{
    if n < records.len() {
        assert(records.drop_last().take(n) =~= records.take(n));
        lemma_decode_remotes_stops(records.drop_last(), n);
    } else {
        assert(records.take(n) =~= records);
    }
}

/// Decodes the remotes in the reply to `method`, see [`decode_remotes`].
pub fn remotes_from(method: &str, records: &[Vec<Entry>]) -> (out: Result<Vec<Remote>, Error>)
    ensures
        match out {
            Ok(list) => decode_remotes(records_view(records@)) == Ok::<
                Seq<RemoteModel>,
                MismatchModel,
            >(remotes_view(list@)),
            Err(error) => {
                &&& error matches Error::ArgumentMismatch(name, mismatch)
                &&& name@ == method@
                &&& decode_remotes(records_view(records@)) == Err::<
                    Seq<RemoteModel>,
                    MismatchModel,
                >(mismatch@)
            },
        },
{
    let ghost all = records_view(records@);
    let mut list: Vec<Remote> = Vec::new();
    let mut i: usize = 0;
    assert(all.take(0) =~= Seq::empty());
    assert(remotes_view(list@) =~= Seq::empty());
    while i < records.len()
        invariant
            i <= records.len(),
            all == records_view(records@),
            decode_remotes(all.take(i as int)) == Ok::<Seq<RemoteModel>, MismatchModel>(
                remotes_view(list@),
            ),
        decreases records.len() - i,
    {
        proof {
            assert(all.take(i + 1).drop_last() =~= all.take(i as int));
            assert(all.take(i + 1).last() == entries_view(records@[i as int]@));
        }
        match Remote::from_entries(records[i].as_slice()) {
            Ok(remote) => {
                let ghost before = remotes_view(list@);
                list.push(remote);
                assert(remotes_view(list@) =~= before.push(remote@));
            },
            Err(mismatch) => {
                proof {
                    lemma_decode_remotes_stops(all, i + 1);
                }
                return Err(Error::ArgumentMismatch(method.to_owned(), mismatch));
            },
        }
        i += 1;
    }
    assert(all.take(records.len() as int) =~= all);
    Ok(list)
}

/// Decodes the result of the last update of a device from the reply to
/// `method`, where the reply holds one.
pub fn result_from(method: &str, record: Option<&[Entry]>) -> (out: Result<Option<Device>, Error>)
    ensures
        match (record, out) {
            (None, Ok(None)) => true,
            (Some(entries), Ok(Some(device))) => decode_device(entries_view(entries@)) == Ok::<
                DeviceModel,
                MismatchModel,
            >(device@),
            (Some(entries), Err(Error::ArgumentMismatch(name, mismatch))) => {
                &&& name@ == method@
                &&& decode_device(entries_view(entries@)) == Err::<DeviceModel, MismatchModel>(
                    mismatch@,
                )
            },
            _ => false,
        },
{
    match record {
        None => Ok(None),
        Some(entries) => match Device::from_entries(entries) {
            Ok(device) => Ok(Some(device)),
            Err(mismatch) => Err(Error::ArgumentMismatch(method.to_owned(), mismatch)),
        },
    }
}

/// Position of the first remote with the identifier `id`.
pub open spec fn first_with_id(remotes: Seq<RemoteModel>, id: Seq<char>) -> Option<int>
    decreases remotes.len(),
{
    if remotes.len() == 0 {
        None
    } else {
        match first_with_id(remotes.drop_last(), id) {
            Some(i) => Some(i),
            None => if remotes.last().remote_id == id {
                Some(remotes.len() - 1)
            } else {
                None
            },
        }
    }
}

/// `first_with_id` finds the least position of a remote with the
/// identifier, and finds one wherever there is one.
pub proof fn lemma_first_with_id(remotes: Seq<RemoteModel>, id: Seq<char>)
    ensures
        match first_with_id(remotes, id) {
            Some(i) => {
                &&& 0 <= i < remotes.len()
                &&& remotes[i].remote_id == id
                &&& forall|j: int| 0 <= j < i ==> (#[trigger] remotes[j]).remote_id != id
            },
            None => forall|j: int|
                0 <= j < remotes.len() ==> (#[trigger] remotes[j]).remote_id != id,
        },
    decreases remotes.len(),
{
    if remotes.len() > 0 {
        let front = remotes.drop_last();
        lemma_first_with_id(front, id);
        assert forall|j: int| 0 <= j < front.len() implies front[j] == remotes[j] by {}
        match first_with_id(front, id) {
            Some(i) => {
                assert(front[i] == remotes[i]);
                assert forall|j: int| 0 <= j < i implies (#[trigger] remotes[j]).remote_id
                    != id by {
                    assert(front[j] == remotes[j]);
                }
            },
            None => {
                assert forall|j: int| 0 <= j < front.len() implies (#[trigger] remotes[j]).remote_id
                    != id by {
                    assert(front[j] == remotes[j]);
                }
            },
        }
    }
}

/// Finds the remote with the given identifier among those that the daemon
/// lists: the first one, where several have it. That none has it is the
/// error `RemoteNotFound`.
pub fn find_remote(remotes: Vec<Remote>, id: &RemoteId) -> (out: Result<Remote, Error>)
    ensures
        match out {
            Ok(remote) => {
                &&& first_with_id(remotes_view(remotes@), id@).is_some()
                &&& remote@ == remotes_view(remotes@)[first_with_id(
                    remotes_view(remotes@),
                    id@,
                ).unwrap()]
            },
            Err(error) => error == Error::RemoteNotFound && first_with_id(
                remotes_view(remotes@),
                id@,
            ).is_none(),
        },
{
    let ghost all = remotes_view(remotes@);
    let mut list = remotes;
    let mut i: usize = 0;
    while i < list.len()
        invariant
            i <= list.len(),
            all == remotes_view(list@),
            all == remotes_view(remotes@),
            forall|j: int| 0 <= j < i ==> (#[trigger] all[j]).remote_id != id@,
        decreases list.len() - i,
    {
        assert(all[i as int] == list@[i as int]@);
        if str_eq(list[i].remote_id.0.as_str(), id.0.as_str()) {
            proof {
                lemma_first_with_id(all, id@);
            }
            return Ok(list.swap_remove(i));
        }
        i += 1;
    }
    proof {
        lemma_first_with_id(all, id@);
    }
    Err(Error::RemoteNotFound)
}

/// The flags with which the firmware of a device is installed: those asked
/// for, and `OFFLINE` besides where the device can only be updated offline.
pub fn install_flags_for(device: &Device, flags: InstallFlags) -> (out: InstallFlags)
    ensures
        out.bits == if device.flags.bits & DeviceFlags::ONLY_OFFLINE == DeviceFlags::ONLY_OFFLINE {
            flags.bits | InstallFlags::OFFLINE
        } else {
            flags.bits
        },
{
    if device.only_offline() {
        flags.union(InstallFlags { bits: InstallFlags::OFFLINE })
    } else {
        flags
    }
}

/// The value of an option of an installation.
#[derive(Clone, Debug)]
pub enum OptionValue {
    Text(String),
    Flag(bool),
}

/// The mathematical content of an [`OptionValue`].
pub ghost enum OptionModel {
    Text(Seq<char>),
    Flag(bool),
}

impl View for OptionValue {
    type V = OptionModel;

    open spec fn view(&self) -> OptionModel {
        match self {
            OptionValue::Text(text) => OptionModel::Text(text@),
            OptionValue::Flag(flag) => OptionModel::Flag(*flag),
        }
    }
}

/// The contents of a list of options.
pub open spec fn options_view(options: Seq<(String, OptionValue)>) -> Seq<
    (Seq<char>, OptionModel),
> {
    Seq::new(options.len(), |i: int| (options[i].0@, options[i].1@))
}

/// The option `name`, set, where `flags` holds `mask`; else nothing.
pub open spec fn flag_option(flags: InstallFlags, mask: u16, name: Seq<char>) -> Seq<
    (Seq<char>, OptionModel),
> {
    if flags.bits & mask == mask {
        seq![(name, OptionModel::Flag(true))]
    } else {
        Seq::empty()
    }
}

/// The options with which the daemon is asked to install a file: the reason
/// and the file's name, then one option for each flag that is set and that
/// the daemon has an option for. A flag without an option is left out, and no
/// option is ever sent unset.
pub open spec fn install_options_of(
    reason: Seq<char>,
    filename: Seq<char>,
    flags: InstallFlags,
) -> Seq<(Seq<char>, OptionModel)> {
    seq![("reason"@, OptionModel::Text(reason)), ("filename"@, OptionModel::Text(filename))]
        + flag_option(flags, InstallFlags::OFFLINE, "offline"@) + flag_option(
        flags,
        InstallFlags::ALLOW_OLDER,
        "allow-older"@,
    ) + flag_option(flags, InstallFlags::ALLOW_REINSTALL, "allow-reinstall"@) + flag_option(
        flags,
        InstallFlags::ALLOW_BRANCH_SWITCH,
        "allow-branch-switch"@,
    ) + flag_option(flags, InstallFlags::FORCE, "force"@) + flag_option(
        flags,
        InstallFlags::IGNORE_POWER,
        "ignore-power"@,
    ) + flag_option(flags, InstallFlags::NO_HISTORY, "no-history"@)
}

/// True where no name occurs twice among the options.
pub open spec fn names_once(options: Seq<(Seq<char>, OptionModel)>) -> bool {
    forall|i: int, j: int|
        0 <= i < j < options.len() ==> (#[trigger] options[i]).0 != (#[trigger] options[j]).0
}

/// True where every option has one of the `lengths` as the length of its
/// name.
pub open spec fn name_lengths_within(
    options: Seq<(Seq<char>, OptionModel)>,
    lengths: Set<nat>,
) -> bool {
    forall|i: int| 0 <= i < options.len() ==> lengths.contains((#[trigger] options[i]).0.len())
}

/// Options whose names occur once stay so when an option is put behind them
/// whose name has a length that none of theirs has.
proof fn lemma_names_once_extends(
    options: Seq<(Seq<char>, OptionModel)>,
    lengths: Set<nat>,
    flags: InstallFlags,
    mask: u16,
    name: Seq<char>,
)
    requires
        names_once(options),
        name_lengths_within(options, lengths),
        !lengths.contains(name.len()),
    ensures
        names_once(options + flag_option(flags, mask, name)),
        name_lengths_within(options + flag_option(flags, mask, name), lengths.insert(name.len())),
{
    let longer = options + flag_option(flags, mask, name);
    assert forall|i: int| 0 <= i < longer.len() implies lengths.insert(name.len()).contains(
        (#[trigger] longer[i]).0.len(),
    ) by {
        if i < options.len() {
            assert(longer[i] == options[i]);
        }
    }
    assert forall|i: int, j: int| 0 <= i < j < longer.len() implies #[trigger] longer[i].0
        != #[trigger] longer[j].0 by {
        assert(longer[i] == options[i]);
        if j < options.len() {
            assert(longer[j] == options[j]);
        } else {
            assert(longer[j].0 == name);
        }
    }
}

/// The options of an installation form a dictionary: whatever the flags,
/// no name occurs twice among them.
pub proof fn lemma_install_options_name_once(
    reason: Seq<char>,
    filename: Seq<char>,
    flags: InstallFlags,
)
    ensures
        names_once(install_options_of(reason, filename, flags)),
{
    reveal_strlit("reason");
    reveal_strlit("filename");
    reveal_strlit("offline");
    reveal_strlit("allow-older");
    reveal_strlit("allow-reinstall");
    reveal_strlit("allow-branch-switch");
    reveal_strlit("force");
    reveal_strlit("ignore-power");
    reveal_strlit("no-history");
    let base = seq![
        ("reason"@, OptionModel::Text(reason)),
        ("filename"@, OptionModel::Text(filename)),
    ];
    let l0 = set![6nat, 8nat];
    assert(base[0].0.len() == 6 && base[1].0.len() == 8);
    assert(names_once(base)) by {
        assert forall|i: int, j: int| 0 <= i < j < base.len() implies #[trigger] base[i].0
            != #[trigger] base[j].0 by {
            assert(i == 0 && j == 1);
        }
    }
    assert(name_lengths_within(base, l0));
    lemma_names_once_extends(base, l0, flags, InstallFlags::OFFLINE, "offline"@);
    let o1 = base + flag_option(flags, InstallFlags::OFFLINE, "offline"@);
    let l1 = l0.insert(7nat);
    lemma_names_once_extends(o1, l1, flags, InstallFlags::ALLOW_OLDER, "allow-older"@);
    let o2 = o1 + flag_option(flags, InstallFlags::ALLOW_OLDER, "allow-older"@);
    let l2 = l1.insert(11nat);
    lemma_names_once_extends(o2, l2, flags, InstallFlags::ALLOW_REINSTALL, "allow-reinstall"@);
    let o3 = o2 + flag_option(flags, InstallFlags::ALLOW_REINSTALL, "allow-reinstall"@);
    let l3 = l2.insert(15nat);
    lemma_names_once_extends(
        o3,
        l3,
        flags,
        InstallFlags::ALLOW_BRANCH_SWITCH,
        "allow-branch-switch"@,
    );
    let o4 = o3 + flag_option(flags, InstallFlags::ALLOW_BRANCH_SWITCH, "allow-branch-switch"@);
    let l4 = l3.insert(19nat);
    lemma_names_once_extends(o4, l4, flags, InstallFlags::FORCE, "force"@);
    let o5 = o4 + flag_option(flags, InstallFlags::FORCE, "force"@);
    let l5 = l4.insert(5nat);
    lemma_names_once_extends(o5, l5, flags, InstallFlags::IGNORE_POWER, "ignore-power"@);
    let o6 = o5 + flag_option(flags, InstallFlags::IGNORE_POWER, "ignore-power"@);
    let l6 = l5.insert(12nat);
    lemma_names_once_extends(o6, l6, flags, InstallFlags::NO_HISTORY, "no-history"@);
}

/// Appends the option `name`, set, where `flags` holds `mask`.
fn push_flag(
    options: &mut Vec<(String, OptionValue)>,
    flags: InstallFlags,
    mask: u16,
    name: &str,
)
    ensures
        options_view(final(options)@) == options_view(old(options)@) + flag_option(
            flags,
            mask,
            name@,
        ),
{
    let ghost before = options_view(options@);
    if flags.contains(InstallFlags { bits: mask }) {
        options.push((name.to_owned(), OptionValue::Flag(true)));
        assert(options_view(options@) =~= before + seq![(name@, OptionModel::Flag(true))]);
    } else {
        assert(before + Seq::<(Seq<char>, OptionModel)>::empty() =~= before);
    }
}

/// The options with which the daemon is asked to install a file, see
/// [`install_options_of`]. They are in a fixed order, and no name occurs
/// twice among them, so that they make up a dictionary.
pub fn install_options(reason: &str, filename: &str, flags: InstallFlags) -> (options: Vec<
    (String, OptionValue),
>)
    ensures
        options_view(options@) == install_options_of(reason@, filename@, flags),
        names_once(options_view(options@)),
{
    proof {
        lemma_install_options_name_once(reason@, filename@, flags);
    }
    let mut options: Vec<(String, OptionValue)> = Vec::new();
    options.push(("reason".to_owned(), OptionValue::Text(reason.to_owned())));
    options.push(("filename".to_owned(), OptionValue::Text(filename.to_owned())));
    assert(options_view(options@) =~= seq![
        ("reason"@, OptionModel::Text(reason@)),
        ("filename"@, OptionModel::Text(filename@)),
    ]);
    push_flag(&mut options, flags, InstallFlags::OFFLINE, "offline");
    push_flag(&mut options, flags, InstallFlags::ALLOW_OLDER, "allow-older");
    push_flag(&mut options, flags, InstallFlags::ALLOW_REINSTALL, "allow-reinstall");
    push_flag(&mut options, flags, InstallFlags::ALLOW_BRANCH_SWITCH, "allow-branch-switch");
    push_flag(&mut options, flags, InstallFlags::FORCE, "force");
    push_flag(&mut options, flags, InstallFlags::IGNORE_POWER, "ignore-power");
    push_flag(&mut options, flags, InstallFlags::NO_HISTORY, "no-history");
    options
}

} // verus!
