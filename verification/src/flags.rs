//! Bit sets that mirror the daemon's own constants. Each type holds the bits
//! as the daemon writes them; the named masks are the bits that have a
//! meaning.

use vstd::prelude::*;

verus! {

/// Attributes of a device.
#[derive(Clone, Copy, Debug, PartialEq, Eq, Structural)]
pub struct DeviceFlags {
    pub bits: u64,
}

impl DeviceFlags {
    /// Device cannot be removed easily.
    pub const INTERNAL: u64 = 0x1;

    /// Device is updatable in this or any other mode.
    pub const UPDATABLE: u64 = 0x2;

    /// Update can only be done from offline mode.
    pub const ONLY_OFFLINE: u64 = 0x4;

    /// Requires AC power.
    pub const REQUIRE_AC: u64 = 0x8;

    /// Is locked and can be unlocked.
    pub const LOCKED: u64 = 0x10;

    /// Is found in current metadata.
    pub const SUPPORTED: u64 = 0x20;

    /// Requires a bootloader mode to be manually enabled by the user.
    pub const NEEDS_BOOTLOADER: u64 = 0x40;

    /// Has been registered with other plugins.
    pub const REGISTERED: u64 = 0x80;

    /// Requires a reboot to apply firmware or to reload hardware.
    pub const NEEDS_REBOOT: u64 = 0x100;

    /// Has been reported to a metadata server.
    pub const REPORTED: u64 = 0x200;

    /// User has been notified.
    pub const NOTIFIED: u64 = 0x400;

    /// Always use the runtime version rather than the bootloader.
    pub const USE_RUNTIME_VERSION: u64 = 0x800;

    /// Install composite firmware on the parent before the child.
    pub const INSTALL_PARENT_FIRST: u64 = 0x1000;

    /// Is currently in bootloader mode.
    pub const IS_BOOTLOADER: u64 = 0x2000;

    /// The hardware is waiting to be replugged.
    pub const WAIT_FOR_REPLUG: u64 = 0x4000;

    /// Ignore validation safety checks when flashing this device.
    pub const IGNORE_VALIDATION: u64 = 0x8000;

    /// Extra metadata can be exposed about this device.
    pub const TRUSTED: u64 = 0x10000;

    /// Requires system shutdown to apply firmware.
    pub const NEEDS_SHUTDOWN: u64 = 0x20000;

    /// Requires the update to be retried with a new plugin.
    pub const ANOTHER_WRITE_REQUIRED: u64 = 0x40000;

    /// Do not add instance IDs from the device baseclass.
    pub const NO_AUTO_INSTANCE_IDS: u64 = 0x80000;

    /// Device update needs to be separately activated.
    pub const NEEDS_ACTIVATION: u64 = 0x100000;

    /// Ensure the version is a valid semantic version.
    pub const ENSURE_SEMVER: u64 = 0x200000;

    /// The flags are not known: every bit is set.
    pub const UNKNOWN: u64 = 0xffff_ffff_ffff_ffff;

    /// Every bit that has a meaning.
    pub const ALL: u64 = 0xffff_ffff_ffff_ffff;

    /// True where every bit of `other` is set in `self`.
    pub open spec fn has(self, other: DeviceFlags) -> bool {
        self.bits & other.bits == other.bits
    }

    /// The set with no bit.
    pub fn empty() -> (flags: DeviceFlags)
        ensures
            flags.bits == 0,
    {
        DeviceFlags { bits: 0 }
    }

    /// The bits as the daemon writes them.
    pub fn bits(&self) -> (bits: u64)
        ensures
            bits == self.bits,
    {
        self.bits
    }

    /// The set of the bits of `bits` that have a meaning; the others are
    /// dropped.
    pub fn from_bits_truncate(bits: u64) -> (flags: DeviceFlags)
        ensures
            flags.bits == bits & DeviceFlags::ALL,
    {
        DeviceFlags { bits: bits & DeviceFlags::ALL }
    }

    /// True where every bit of `other` is set in `self`.
    pub fn contains(&self, other: DeviceFlags) -> (held: bool)
        ensures
            held == self.has(other),
    {
        self.bits & other.bits == other.bits
    }

    /// The bits of both sets.
    pub fn union(self, other: DeviceFlags) -> (flags: DeviceFlags)
        ensures
            flags.bits == self.bits | other.bits,
    {
        DeviceFlags { bits: self.bits | other.bits }
    }
}

impl Default for DeviceFlags {
    fn default() -> (flags: DeviceFlags)
        ensures
            flags.bits == 0,
    {
        DeviceFlags { bits: 0 }
    }
}

/// Attributes of a release.
#[derive(Clone, Copy, Debug, PartialEq, Eq, Structural)]
pub struct ReleaseFlags {
    pub bits: u64,
}

impl ReleaseFlags {
    /// The payload is trusted.
    pub const TRUSTED_PAYLOAD: u64 = 0x1;

    /// The metadata is trusted.
    pub const TRUSTED_METADATA: u64 = 0x2;

    /// The release is newer than the installed version.
    pub const IS_UPGRADE: u64 = 0x4;

    /// The release is older than the installed version.
    pub const IS_DOWNGRADE: u64 = 0x8;

    /// The installed version is too new for this release.
    pub const BLOCKED_VERSION: u64 = 0x10;

    /// The release waits for approval.
    pub const BLOCKED_APPROVAL: u64 = 0x20;

    /// The flags are not known: every bit is set.
    pub const UNKNOWN: u64 = 0xffff_ffff_ffff_ffff;

    /// Every bit that has a meaning.
    pub const ALL: u64 = 0xffff_ffff_ffff_ffff;

    /// True where every bit of `other` is set in `self`.
    pub open spec fn has(self, other: ReleaseFlags) -> bool {
        self.bits & other.bits == other.bits
    }

    /// The set with no bit.
    pub fn empty() -> (flags: ReleaseFlags)
        ensures
            flags.bits == 0,
    {
        ReleaseFlags { bits: 0 }
    }

    /// The bits as the daemon writes them.
    pub fn bits(&self) -> (bits: u64)
        ensures
            bits == self.bits,
    {
        self.bits
    }

    /// The set of the bits of `bits` that have a meaning; the others are
    /// dropped.
    pub fn from_bits_truncate(bits: u64) -> (flags: ReleaseFlags)
        ensures
            flags.bits == bits & ReleaseFlags::ALL,
    {
        ReleaseFlags { bits: bits & ReleaseFlags::ALL }
    }

    /// True where every bit of `other` is set in `self`.
    pub fn contains(&self, other: ReleaseFlags) -> (held: bool)
        ensures
            held == self.has(other),
    {
        self.bits & other.bits == other.bits
    }

    /// The bits of both sets.
    pub fn union(self, other: ReleaseFlags) -> (flags: ReleaseFlags)
        ensures
            flags.bits == self.bits | other.bits,
    {
        ReleaseFlags { bits: self.bits | other.bits }
    }
}

impl Default for ReleaseFlags {
    fn default() -> (flags: ReleaseFlags)
        ensures
            flags.bits == 0,
    {
        ReleaseFlags { bits: 0 }
    }
}

/// Which parts of a release are attested.
#[derive(Clone, Copy, Debug, PartialEq, Eq, Structural)]
pub struct TrustFlags {
    pub bits: u64,
}

impl TrustFlags {
    /// The payload is attested.
    pub const PAYLOAD: u64 = 0x1;

    /// The metadata is attested.
    pub const METADATA: u64 = 0x2;

    /// Every bit that has a meaning.
    pub const ALL: u64 = 0x3;

    /// True where every bit of `other` is set in `self`.
    pub open spec fn has(self, other: TrustFlags) -> bool {
        self.bits & other.bits == other.bits
    }

    /// The set with no bit.
    pub fn empty() -> (flags: TrustFlags)
        ensures
            flags.bits == 0,
    {
        TrustFlags { bits: 0 }
    }

    /// The bits as the daemon writes them.
    pub fn bits(&self) -> (bits: u64)
        ensures
            bits == self.bits,
    {
        self.bits
    }

    /// The set of the bits of `bits` that have a meaning; the others are
    /// dropped.
    pub fn from_bits_truncate(bits: u64) -> (flags: TrustFlags)
        ensures
            flags.bits == bits & TrustFlags::ALL,
    {
        TrustFlags { bits: bits & TrustFlags::ALL }
    }

    /// True where every bit of `other` is set in `self`.
    pub fn contains(&self, other: TrustFlags) -> (held: bool)
        ensures
            held == self.has(other),
    {
        self.bits & other.bits == other.bits
    }

    /// The bits of both sets.
    pub fn union(self, other: TrustFlags) -> (flags: TrustFlags)
        ensures
            flags.bits == self.bits | other.bits,
    {
        TrustFlags { bits: self.bits | other.bits }
    }
}

impl Default for TrustFlags {
    fn default() -> (flags: TrustFlags)
        ensures
            flags.bits == 0,
    {
        TrustFlags { bits: 0 }
    }
}

/// How an installation is to be carried out.
#[derive(Clone, Copy, Debug, PartialEq, Eq, Structural)]
pub struct InstallFlags {
    pub bits: u16,
}

impl InstallFlags {
    /// Schedule the installation for the next reboot.
    pub const OFFLINE: u16 = 0x1;

    /// Allow installing the version that is installed.
    pub const ALLOW_REINSTALL: u16 = 0x2;

    /// Allow installing an older version.
    pub const ALLOW_OLDER: u16 = 0x4;

    /// Override safety checks.
    pub const FORCE: u16 = 0x8;

    /// Do not write to the history database.
    pub const NO_HISTORY: u16 = 0x10;

    /// Allow switching the firmware branch.
    pub const ALLOW_BRANCH_SWITCH: u16 = 0x20;

    /// Ignore a checksum failure.
    pub const IGNORE_CHECKSUM: u16 = 0x40;

    /// Ignore a vendor or product mismatch.
    pub const IGNORE_VID_PID: u16 = 0x80;

    /// Ignore the battery level.
    pub const IGNORE_POWER: u16 = 0x100;

    /// Do not look for the device again after the update.
    pub const NO_SEARCH: u16 = 0x200;

    /// Every bit that has a meaning.
    pub const ALL: u16 = 0x3ff;

    /// True where every bit of `other` is set in `self`.
    pub open spec fn has(self, other: InstallFlags) -> bool {
        self.bits & other.bits == other.bits
    }

    /// The set with no bit.
    pub fn empty() -> (flags: InstallFlags)
        ensures
            flags.bits == 0,
    {
        InstallFlags { bits: 0 }
    }

    /// The bits as the daemon writes them.
    pub fn bits(&self) -> (bits: u16)
        ensures
            bits == self.bits,
    {
        self.bits
    }

    /// The set of the bits of `bits` that have a meaning; the others are
    /// dropped.
    pub fn from_bits_truncate(bits: u16) -> (flags: InstallFlags)
        ensures
            flags.bits == bits & InstallFlags::ALL,
    {
        InstallFlags { bits: bits & InstallFlags::ALL }
    }

    /// True where every bit of `other` is set in `self`.
    pub fn contains(&self, other: InstallFlags) -> (held: bool)
        ensures
            held == self.has(other),
    {
        self.bits & other.bits == other.bits
    }

    /// The bits of both sets.
    pub fn union(self, other: InstallFlags) -> (flags: InstallFlags)
        ensures
            flags.bits == self.bits | other.bits,
    {
        InstallFlags { bits: self.bits | other.bits }
    }
}

/// What the client is able to do for the daemon.
#[derive(Clone, Copy, Debug, PartialEq, Eq, Structural)]
pub struct FeatureFlags {
    pub bits: u64,
}

impl FeatureFlags {
    /// The client can upload a report.
    pub const CAN_REPORT: u64 = 0x1;

    /// The client can show a detach prompt.
    pub const DETACH_ACTION: u64 = 0x2;

    /// The client can show a post-update prompt.
    pub const UPDATE_ACTION: u64 = 0x4;

    /// The client can switch the firmware branch.
    pub const SWITCH_BRANCH: u64 = 0x8;

    /// The client can show interactive requests.
    pub const REQUESTS: u64 = 0x10;

    /// The client can warn about full-disk encryption.
    pub const FDE_WARNING: u64 = 0x20;

    /// The client can show community text.
    pub const COMMUNITY_TEXT: u64 = 0x40;

    /// Every bit that has a meaning.
    pub const ALL: u64 = 0x7f;

    /// True where every bit of `other` is set in `self`.
    pub open spec fn has(self, other: FeatureFlags) -> bool {
        self.bits & other.bits == other.bits
    }

    /// The set with no bit.
    pub fn empty() -> (flags: FeatureFlags)
        ensures
            flags.bits == 0,
    {
        FeatureFlags { bits: 0 }
    }

    /// The bits as the daemon writes them.
    pub fn bits(&self) -> (bits: u64)
        ensures
            bits == self.bits,
    {
        self.bits
    }

    /// The set of the bits of `bits` that have a meaning; the others are
    /// dropped.
    pub fn from_bits_truncate(bits: u64) -> (flags: FeatureFlags)
        ensures
            flags.bits == bits & FeatureFlags::ALL,
    {
        FeatureFlags { bits: bits & FeatureFlags::ALL }
    }

    /// True where every bit of `other` is set in `self`.
    pub fn contains(&self, other: FeatureFlags) -> (held: bool)
        ensures
            held == self.has(other),
    {
        self.bits & other.bits == other.bits
    }

    /// The bits of both sets.
    pub fn union(self, other: FeatureFlags) -> (flags: FeatureFlags)
        ensures
            flags.bits == self.bits | other.bits,
    {
        FeatureFlags { bits: self.bits | other.bits }
    }
}

} // verus!
