//! Devices, as the daemon describes them.

use crate::common::{
    KEY_CHECKSUM, KEY_CREATED, KEY_DESCRIPTION, KEY_DEVICE_ID, KEY_FLAGS, KEY_FLASHES_LEFT,
    KEY_GUID, KEY_ICON, KEY_INSTALL_DURATION, KEY_INSTANCE_IDS, KEY_MODIFIED, KEY_NAME,
    KEY_PARENT_DEVICE_ID, KEY_PLUGIN, KEY_SERIAL, KEY_SUMMARY, KEY_UPDATE_ERROR,
    KEY_UPDATE_MESSAGE, KEY_UPDATE_STATE, KEY_VENDOR, KEY_VENDOR_ID, KEY_VERSION,
    KEY_VERSION_BOOTLOADER, KEY_VERSION_LOWEST,
};
use crate::dbus_helpers::{
    dbus_str, dbus_strs, dbus_u64, want_nested_texts, want_text, want_u64,
};
use crate::flags::DeviceFlags;
use crate::text::str_eq;
use crate::wire::{
    entries_view, text_of, texts_of, Entry, Mismatch, MismatchModel, WireModel, WireValue,
};
use vstd::prelude::*;
use vstd::string::*;

verus! {

/// The state of the last update of a device.
#[derive(Clone, Copy, Debug, PartialEq, Eq, Structural)]
pub enum UpdateState {
    Unknown,
    Pending,
    Success,
    Failed,
    NeedsReboot,
    FailedTransient,
}

impl UpdateState {
    /// The value that the daemon writes as `code`; a code that it does not
    /// use reads as `Unknown`.
    pub open spec fn of_code(code: u8) -> UpdateState {
        if code == 0 {
            UpdateState::Unknown
        } else if code == 1 {
            UpdateState::Pending
        } else if code == 2 {
            UpdateState::Success
        } else if code == 3 {
            UpdateState::Failed
        } else if code == 4 {
            UpdateState::NeedsReboot
        } else if code == 5 {
            UpdateState::FailedTransient
        } else {
            UpdateState::Unknown
        }
    }
}

impl From<u8> for UpdateState {
    fn from(value: u8) -> (out: UpdateState) {
        match value {
            0 => UpdateState::Unknown,
            1 => UpdateState::Pending,
            2 => UpdateState::Success,
            3 => UpdateState::Failed,
            4 => UpdateState::NeedsReboot,
            5 => UpdateState::FailedTransient,
            _ => UpdateState::Unknown,
        }
    }
}

impl vstd::std_specs::convert::FromSpecImpl<u8> for UpdateState {
    open spec fn obeys_from_spec() -> bool {
        true
    }

    open spec fn from_spec(value: u8) -> UpdateState {
        UpdateState::of_code(value)
    }
}

/// The way in which a device writes its version.
#[derive(Clone, Copy, Debug, PartialEq, Eq, Structural)]
pub enum VersionFormat {
    Unknown,
    Plain,
    Number,
    Pair,
    Triplet,
    Quad,
    Bcd,
    IntelMe,
    IntelMe2,
}

impl VersionFormat {
    /// The value that the daemon writes as `code`; a code that it does not
    /// use reads as `Unknown`.
    pub open spec fn of_code(code: u8) -> VersionFormat {
        if code == 0 {
            VersionFormat::Unknown
        } else if code == 1 {
            VersionFormat::Plain
        } else if code == 2 {
            VersionFormat::Number
        } else if code == 3 {
            VersionFormat::Pair
        } else if code == 4 {
            VersionFormat::Triplet
        } else if code == 5 {
            VersionFormat::Quad
        } else if code == 6 {
            VersionFormat::Bcd
        } else if code == 7 {
            VersionFormat::IntelMe
        } else if code == 8 {
            VersionFormat::IntelMe2
        } else {
            VersionFormat::Unknown
        }
    }
}

impl From<u8> for VersionFormat {
    fn from(value: u8) -> (out: VersionFormat) {
        match value {
            0 => VersionFormat::Unknown,
            1 => VersionFormat::Plain,
            2 => VersionFormat::Number,
            3 => VersionFormat::Pair,
            4 => VersionFormat::Triplet,
            5 => VersionFormat::Quad,
            6 => VersionFormat::Bcd,
            7 => VersionFormat::IntelMe,
            8 => VersionFormat::IntelMe2,
            _ => VersionFormat::Unknown,
        }
    }
}

impl vstd::std_specs::convert::FromSpecImpl<u8> for VersionFormat {
    open spec fn obeys_from_spec() -> bool {
        true
    }

    open spec fn from_spec(value: u8) -> VersionFormat {
        VersionFormat::of_code(value)
    }
}

/// The identifier of a device.
#[derive(Clone, Debug, Default)]
pub struct DeviceId(pub String);

impl View for DeviceId {
    type V = Seq<char>;

    open spec fn view(&self) -> Seq<char> {
        self.0@
    }
}

/// A device that the daemon knows of.
#[derive(Debug)]
pub struct Device {
    /// Checksum of the installed firmware.
    pub checksum: Option<String>,
    /// When the device was first seen, in seconds since the epoch.
    pub created: u64,
    /// A longer description.
    pub description: Option<String>,
    /// The stable identifier.
    pub device_id: DeviceId,
    /// Capabilities and status.
    pub flags: DeviceFlags,
    /// How many more times the device can be flashed.
    pub flashes_left: Option<u32>,
    /// The GUIDs that the device answers to.
    pub guid: Vec<String>,
    /// Names of icons for the device.
    pub icon: Vec<String>,
    /// How long an update takes, in seconds.
    pub install_duration: Option<u32>,
    /// The instance identifiers of the device.
    pub instance_ids: Vec<String>,
    /// When the device was last changed, in seconds since the epoch.
    pub modified: Option<u64>,
    /// The name for people to read.
    pub name: String,
    /// The identifier of the parent device, if there is one.
    pub parent_device_id: Option<DeviceId>,
    /// The plugin that drives the device.
    pub plugin: String,
    /// The serial number.
    pub serial: Option<String>,
    /// A one-line description.
    pub summary: Option<String>,
    /// Why the last update failed.
    pub update_error: Option<String>,
    /// What the last update asks of the user.
    pub update_message: Option<String>,
    /// How the last update ended.
    pub update_state: Option<UpdateState>,
    /// The identifier of the vendor.
    pub vendor_id: String,
    /// The name of the vendor.
    pub vendor: String,
    /// The version of the bootloader.
    pub version_bootloader: Option<String>,
    /// The way in which the version is written.
    pub version_format: Option<VersionFormat>,
    /// The lowest version that can be installed.
    pub version_lowest: Option<String>,
    /// The installed version.
    pub version: String,
}

/// The mathematical content of a [`Device`].
pub ghost struct DeviceModel {
    pub checksum: Option<Seq<char>>,
    pub created: u64,
    pub description: Option<Seq<char>>,
    pub device_id: Seq<char>,
    pub flags: DeviceFlags,
    pub flashes_left: Option<u32>,
    pub guid: Seq<Seq<char>>,
    pub icon: Seq<Seq<char>>,
    pub install_duration: Option<u32>,
    pub instance_ids: Seq<Seq<char>>,
    pub modified: Option<u64>,
    pub name: Seq<char>,
    pub parent_device_id: Option<Seq<char>>,
    pub plugin: Seq<char>,
    pub serial: Option<Seq<char>>,
    pub summary: Option<Seq<char>>,
    pub update_error: Option<Seq<char>>,
    pub update_message: Option<Seq<char>>,
    pub update_state: Option<UpdateState>,
    pub vendor_id: Seq<char>,
    pub vendor: Seq<char>,
    pub version_bootloader: Option<Seq<char>>,
    pub version_format: Option<VersionFormat>,
    pub version_lowest: Option<Seq<char>>,
    pub version: Seq<char>,
}

impl View for Device {
    type V = DeviceModel;

    open spec fn view(&self) -> DeviceModel {
        DeviceModel {
            checksum: text_of(self.checksum),
            created: self.created,
            description: text_of(self.description),
            device_id: self.device_id@,
            flags: self.flags,
            flashes_left: self.flashes_left,
            guid: texts_of(self.guid@),
            icon: texts_of(self.icon@),
            install_duration: self.install_duration,
            instance_ids: texts_of(self.instance_ids@),
            modified: self.modified,
            name: self.name@,
            parent_device_id: match self.parent_device_id {
                Some(id) => Some(id@),
                None => None,
            },
            plugin: self.plugin@,
            serial: text_of(self.serial),
            summary: text_of(self.summary),
            update_error: text_of(self.update_error),
            update_message: text_of(self.update_message),
            update_state: self.update_state,
            vendor_id: self.vendor_id@,
            vendor: self.vendor@,
            version_bootloader: text_of(self.version_bootloader),
            version_format: self.version_format,
            version_lowest: text_of(self.version_lowest),
            version: self.version@,
        }
    }
}

/// The device of which nothing is known yet: what decoding starts from.
pub open spec fn blank_device() -> DeviceModel {
    DeviceModel {
        checksum: None,
        created: 0,
        description: None,
        device_id: Seq::empty(),
        flags: DeviceFlags { bits: 0 },
        flashes_left: None,
        guid: Seq::empty(),
        icon: Seq::empty(),
        install_duration: None,
        instance_ids: Seq::empty(),
        modified: None,
        name: Seq::empty(),
        parent_device_id: None,
        plugin: Seq::empty(),
        serial: None,
        summary: None,
        update_error: None,
        update_message: None,
        update_state: None,
        vendor_id: Seq::empty(),
        vendor: Seq::empty(),
        version_bootloader: None,
        version_format: None,
        version_lowest: None,
        version: Seq::empty(),
    }
}

/// The device `known` once the attribute `key` has arrived with `value`. A key
/// that names no attribute leaves the device as it is; a value of the wrong
/// shape is an error.
pub open spec fn device_with(known: DeviceModel, key: Seq<char>, value: WireModel) -> Result<
    DeviceModel,
    MismatchModel,
> {
    if key == KEY_CHECKSUM@ {
        match want_text(value, key) {
            Ok(text) => Ok(DeviceModel { checksum: Some(text), ..known }),
            Err(e) => Err(e),
        }
    } else if key == KEY_CREATED@ {
        match want_u64(value, key) {
            Ok(number) => Ok(DeviceModel { created: number, ..known }),
            Err(e) => Err(e),
        }
    } else if key == KEY_DESCRIPTION@ {
        match want_text(value, key) {
            Ok(text) => Ok(DeviceModel { description: Some(text), ..known }),
            Err(e) => Err(e),
        }
    } else if key == KEY_DEVICE_ID@ {
        match want_text(value, key) {
            Ok(text) => Ok(DeviceModel { device_id: text, ..known }),
            Err(e) => Err(e),
        }
    } else if key == KEY_FLAGS@ {
        match want_u64(value, key) {
            Ok(number) => Ok(
                DeviceModel { flags: DeviceFlags { bits: number & DeviceFlags::ALL }, ..known },
            ),
            Err(e) => Err(e),
        }
    } else if key == KEY_FLASHES_LEFT@ {
        match want_u64(value, key) {
            Ok(number) => Ok(DeviceModel { flashes_left: Some(number as u32), ..known }),
            Err(e) => Err(e),
        }
    } else if key == KEY_GUID@ {
        match want_nested_texts(value, key) {
            Ok(texts) => Ok(DeviceModel { guid: texts, ..known }),
            Err(e) => Err(e),
        }
    } else if key == KEY_ICON@ {
        match want_nested_texts(value, key) {
            Ok(texts) => Ok(DeviceModel { icon: texts, ..known }),
            Err(e) => Err(e),
        }
    } else if key == KEY_INSTALL_DURATION@ {
        match want_u64(value, key) {
            Ok(number) => Ok(DeviceModel { install_duration: Some(number as u32), ..known }),
            Err(e) => Err(e),
        }
    } else if key == KEY_INSTANCE_IDS@ {
        match want_nested_texts(value, key) {
            Ok(texts) => Ok(DeviceModel { instance_ids: texts, ..known }),
            Err(e) => Err(e),
        }
    } else if key == KEY_MODIFIED@ {
        match want_u64(value, key) {
            Ok(number) => Ok(DeviceModel { modified: Some(number), ..known }),
            Err(e) => Err(e),
        }
    } else if key == KEY_NAME@ {
        match want_text(value, key) {
            Ok(text) => Ok(DeviceModel { name: text, ..known }),
            Err(e) => Err(e),
        }
    } else if key == KEY_PARENT_DEVICE_ID@ {
        match want_text(value, key) {
            Ok(text) => Ok(DeviceModel { parent_device_id: Some(text), ..known }),
            Err(e) => Err(e),
        }
    } else if key == KEY_PLUGIN@ {
        match want_text(value, key) {
            Ok(text) => Ok(DeviceModel { plugin: text, ..known }),
            Err(e) => Err(e),
        }
    } else if key == KEY_SERIAL@ {
        match want_text(value, key) {
            Ok(text) => Ok(DeviceModel { serial: Some(text), ..known }),
            Err(e) => Err(e),
        }
    } else if key == KEY_SUMMARY@ {
        match want_text(value, key) {
            Ok(text) => Ok(DeviceModel { summary: Some(text), ..known }),
            Err(e) => Err(e),
        }
    } else if key == KEY_UPDATE_ERROR@ {
        match want_text(value, key) {
            Ok(text) => Ok(DeviceModel { update_error: Some(text), ..known }),
            Err(e) => Err(e),
        }
    } else if key == KEY_UPDATE_MESSAGE@ {
        match want_text(value, key) {
            Ok(text) => Ok(DeviceModel { update_message: Some(text), ..known }),
            Err(e) => Err(e),
        }
    } else if key == KEY_UPDATE_STATE@ {
        match want_u64(value, key) {
            Ok(number) => Ok(
                DeviceModel { update_state: Some(UpdateState::of_code(number as u8)), ..known },
            ),
            Err(e) => Err(e),
        }
    } else if key == KEY_VENDOR_ID@ {
        match want_text(value, key) {
            Ok(text) => Ok(DeviceModel { vendor_id: text, ..known }),
            Err(e) => Err(e),
        }
    } else if key == KEY_VENDOR@ {
        match want_text(value, key) {
            Ok(text) => Ok(DeviceModel { vendor: text, ..known }),
            Err(e) => Err(e),
        }
    } else if key == KEY_VERSION_BOOTLOADER@ {
        match want_text(value, key) {
            Ok(text) => Ok(DeviceModel { version_bootloader: Some(text), ..known }),
            Err(e) => Err(e),
        }
    } else if key == "VersionFormat"@ {
        match want_u64(value, key) {
            Ok(number) => Ok(
                DeviceModel {
                    version_format: Some(VersionFormat::of_code(number as u8)),
                    ..known
                },
            ),
            Err(e) => Err(e),
        }
    } else if key == KEY_VERSION_LOWEST@ {
        match want_text(value, key) {
            Ok(text) => Ok(DeviceModel { version_lowest: Some(text), ..known }),
            Err(e) => Err(e),
        }
    } else if key == KEY_VERSION@ {
        match want_text(value, key) {
            Ok(text) => Ok(DeviceModel { version: text, ..known }),
            Err(e) => Err(e),
        }
    } else {
        Ok(known)
    }
}

/// The device that a list of keyed values describes: the attributes are
/// taken in order, so a key that comes twice counts the second time, and the
/// first value of the wrong shape is the error.
pub open spec fn decode_device(entries: Seq<(Seq<char>, WireModel)>) -> Result<
    DeviceModel,
    MismatchModel,
>
    decreases entries.len(),
{
    if entries.len() == 0 {
        Ok(blank_device())
    } else {
        match decode_device(entries.drop_last()) {
            Ok(known) => device_with(known, entries.last().0, entries.last().1),
            Err(e) => Err(e),
        }
    }
}

impl Default for Device {
    fn default() -> (blank: Device)
        ensures
            blank@ == blank_device(),
    {
        let blank = Device {
            checksum: None,
            created: 0,
            description: None,
            device_id: DeviceId(String::new()),
            flags: DeviceFlags { bits: 0 },
            flashes_left: None,
            guid: Vec::new(),
            icon: Vec::new(),
            install_duration: None,
            instance_ids: Vec::new(),
            modified: None,
            name: String::new(),
            parent_device_id: None,
            plugin: String::new(),
            serial: None,
            summary: None,
            update_error: None,
            update_message: None,
            update_state: None,
            vendor_id: String::new(),
            vendor: String::new(),
            version_bootloader: None,
            version_format: None,
            version_lowest: None,
            version: String::new(),
        };
        proof {
            assert(texts_of(blank.guid@) =~= Seq::empty());
            assert(texts_of(blank.icon@) =~= Seq::empty());
            assert(texts_of(blank.instance_ids@) =~= Seq::empty());
        }
        blank
    }
}

impl Device {
    /// Takes in one attribute, see [`device_with`].
    pub fn set(&mut self, key: &str, value: &WireValue) -> (out: Result<(), Mismatch>)
        ensures
            match out {
                Ok(()) => device_with(old(self)@, key@, value@) == Ok::<DeviceModel, MismatchModel>(
                    final(self)@,
                ),
                Err(e) => device_with(old(self)@, key@, value@) == Err::<
                    DeviceModel,
                    MismatchModel,
                >(e@),
            },
    {
        if str_eq(key, KEY_CHECKSUM) {
            let text = dbus_str(value, key)?;
            self.checksum = Some(text.to_owned());
        } else if str_eq(key, KEY_CREATED) {
            let number = dbus_u64(value, key)?;
            self.created = number;
        } else if str_eq(key, KEY_DESCRIPTION) {
            let text = dbus_str(value, key)?;
            self.description = Some(text.to_owned());
        } else if str_eq(key, KEY_DEVICE_ID) {
            let text = dbus_str(value, key)?;
            self.device_id = DeviceId(text.to_owned());
        } else if str_eq(key, KEY_FLAGS) {
            let number = dbus_u64(value, key)?;
            self.flags = DeviceFlags::from_bits_truncate(number);
        } else if str_eq(key, KEY_FLASHES_LEFT) {
            let number = dbus_u64(value, key)?;
            self.flashes_left = Some(#[verifier::truncate] (number as u32));
        } else if str_eq(key, KEY_GUID) {
            let texts = dbus_strs(value, key)?;
            self.guid = texts;
        } else if str_eq(key, KEY_ICON) {
            let texts = dbus_strs(value, key)?;
            self.icon = texts;
        } else if str_eq(key, KEY_INSTALL_DURATION) {
            let number = dbus_u64(value, key)?;
            self.install_duration = Some(#[verifier::truncate] (number as u32));
        } else if str_eq(key, KEY_INSTANCE_IDS) {
            let texts = dbus_strs(value, key)?;
            self.instance_ids = texts;
        } else if str_eq(key, KEY_MODIFIED) {
            let number = dbus_u64(value, key)?;
            self.modified = Some(number);
        } else if str_eq(key, KEY_NAME) {
            let text = dbus_str(value, key)?;
            self.name = text.to_owned();
        } else if str_eq(key, KEY_PARENT_DEVICE_ID) {
            let text = dbus_str(value, key)?;
            self.parent_device_id = Some(DeviceId(text.to_owned()));
        } else if str_eq(key, KEY_PLUGIN) {
            let text = dbus_str(value, key)?;
            self.plugin = text.to_owned();
        } else if str_eq(key, KEY_SERIAL) {
            let text = dbus_str(value, key)?;
            self.serial = Some(text.to_owned());
        } else if str_eq(key, KEY_SUMMARY) {
            let text = dbus_str(value, key)?;
            self.summary = Some(text.to_owned());
        } else if str_eq(key, KEY_UPDATE_ERROR) {
            let text = dbus_str(value, key)?;
            self.update_error = Some(text.to_owned());
        } else if str_eq(key, KEY_UPDATE_MESSAGE) {
            let text = dbus_str(value, key)?;
            self.update_message = Some(text.to_owned());
        } else if str_eq(key, KEY_UPDATE_STATE) {
            let number = dbus_u64(value, key)?;
            self.update_state = Some(UpdateState::from(#[verifier::truncate] (number as u8)));
        } else if str_eq(key, KEY_VENDOR_ID) {
            let text = dbus_str(value, key)?;
            self.vendor_id = text.to_owned();
        } else if str_eq(key, KEY_VENDOR) {
            let text = dbus_str(value, key)?;
            self.vendor = text.to_owned();
        } else if str_eq(key, KEY_VERSION_BOOTLOADER) {
            let text = dbus_str(value, key)?;
            self.version_bootloader = Some(text.to_owned());
        } else if str_eq(key, "VersionFormat") {
            let number = dbus_u64(value, key)?;
            self.version_format = Some(VersionFormat::from(#[verifier::truncate] (number as u8)));
        } else if str_eq(key, KEY_VERSION_LOWEST) {
            let text = dbus_str(value, key)?;
            self.version_lowest = Some(text.to_owned());
        } else if str_eq(key, KEY_VERSION) {
            let text = dbus_str(value, key)?;
            self.version = text.to_owned();
        }
        Ok(())
    }

    /// Decodes a device from the keyed values of a reply, see
    /// [`decode_device`].
    pub fn from_entries(entries: &[Entry]) -> (out: Result<Device, Mismatch>)
        ensures
            match out {
                Ok(device) => decode_device(entries_view(entries@)) == Ok::<
                    DeviceModel,
                    MismatchModel,
                >(device@),
                Err(e) => decode_device(entries_view(entries@)) == Err::<
                    DeviceModel,
                    MismatchModel,
                >(e@),
            },
    {
        let ghost all = entries_view(entries@);
        let mut device = Device::default();
        let mut i: usize = 0;
        assert(all.take(0) =~= Seq::empty());
        while i < entries.len()
            invariant
                i <= entries.len(),
                all == entries_view(entries@),
                decode_device(all.take(i as int)) == Ok::<DeviceModel, MismatchModel>(device@),
            decreases entries.len() - i,
        {
            proof {
                assert(all.take(i + 1).drop_last() =~= all.take(i as int));
                assert(all.take(i + 1).last() == (entries@[i as int].0@, entries@[i as int].1@));
            }
            match device.set(entries[i].0.as_str(), &entries[i].1) {
                Ok(()) => {},
                Err(e) => {
                    proof {
                        lemma_decode_device_stops(all, i + 1);
                    }
                    return Err(e);
                },
            }
            i += 1;
        }
        assert(all.take(entries.len() as int) =~= all);
        Ok(device)
    }
}

/// Once a list of keyed values has failed to decode, what follows it
/// changes nothing.
pub proof fn lemma_decode_device_stops(entries: Seq<(Seq<char>, WireModel)>, n: int)
    requires
        0 <= n <= entries.len(),
        decode_device(entries.take(n)).is_err(),
    ensures
        decode_device(entries) == decode_device(entries.take(n)),
    decreases entries.len(),
{
    if n < entries.len() {
        assert(entries.drop_last().take(n) =~= entries.take(n));
        lemma_decode_device_stops(entries.drop_last(), n);
    } else {
        assert(entries.take(n) =~= entries);
    }
}

impl Device {
    /// Check if every flag of `flags` is set.
    pub fn has_flag(&self, flags: DeviceFlags) -> (held: bool)
        ensures
            held == self.flags.has(flags),
    {
        self.flags.contains(flags)
    }

    /// Returns true if the device answers to `guid`.
    pub fn has_guid(&self, guid: &str) -> (found: bool)
        ensures
            found == texts_of(self.guid@).contains(guid@),
    {
        let ghost texts = texts_of(self.guid@);
        let mut i: usize = 0;
        while i < self.guid.len()
            invariant
                i <= self.guid.len(),
                texts == texts_of(self.guid@),
                forall|j: int| 0 <= j < i ==> texts[j] != guid@,
            decreases self.guid.len() - i,
        {
            assert(texts[i as int] == self.guid@[i as int]@);
            if str_eq(self.guid[i].as_str(), guid) {
                return true;
            }
            i += 1;
        }
        false
    }

    /// Checks if the device is found in the current metadata.
    pub fn is_supported(&self) -> (held: bool)
        ensures
            held == (self.flags.bits & DeviceFlags::SUPPORTED == DeviceFlags::SUPPORTED),
    {
        self.has_flag(DeviceFlags { bits: DeviceFlags::SUPPORTED })
    }

    /// Determines if the device is updatable.
    pub fn is_updateable(&self) -> (held: bool)
        ensures
            held == (self.flags.bits & DeviceFlags::UPDATABLE == DeviceFlags::UPDATABLE),
    {
        self.has_flag(DeviceFlags { bits: DeviceFlags::UPDATABLE })
    }

    /// Checks if the device requires a reboot.
    pub fn needs_reboot(&self) -> (held: bool)
        ensures
            held == (self.flags.bits & DeviceFlags::NEEDS_REBOOT == DeviceFlags::NEEDS_REBOOT),
    {
        self.has_flag(DeviceFlags { bits: DeviceFlags::NEEDS_REBOOT })
    }

    /// Check if the device must be updated offline.
    pub fn only_offline(&self) -> (held: bool)
        ensures
            held == (self.flags.bits & DeviceFlags::ONLY_OFFLINE == DeviceFlags::ONLY_OFFLINE),
    {
        self.has_flag(DeviceFlags { bits: DeviceFlags::ONLY_OFFLINE })
    }
}

impl AsRef<DeviceId> for Device {
    fn as_ref(&self) -> (id: &DeviceId)
        ensures
            *id == self.device_id,
    {
        &self.device_id
    }
}

} // verus!
