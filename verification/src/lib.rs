//! Client-side logic for the firmware update daemon: reading what the daemon
//! sends, choosing and checking checksums, resolving where firmware lives,
//! and deciding each step of fetching, caching and installing it.
//!
//! Nothing here talks to the bus, the network or the disk. Whoever does hands
//! the outcome of each action to this crate and is told what to do next.

use vstd::prelude::*;
use vstd::string::*;

pub mod client;
pub mod common;
pub mod dbus_helpers;
pub mod device;
pub mod fetch;
pub mod flags;
pub mod metadata;
pub mod release;
pub mod remote;
pub mod request;
pub mod signal;
pub mod text;
pub mod wire;

pub use crate::client::{
    client_name, devices_from, find_remote, install_flags_for, install_options, percentage_from,
    releases_from, remotes_from, result_from, status_from, OptionValue,
};
pub use crate::common::DigestKind;
pub use crate::device::{Device, DeviceId, UpdateState, VersionFormat};
pub use crate::fetch::{
    plan_fetch, try_plan_fetch, FetchEvent, FetchPlan, FetchState, FetchStep, Source,
};
pub use crate::metadata::{MetadataEvent, MetadataPlan, MetadataState, MetadataStep};
pub use crate::request::Request;
pub use crate::signal::{
    body_shape, decode_signal, listen_step, replay, BodyShape, Decoded, ListenStep, RawSignal,
    Signal, SignalBody,
};
pub use crate::flags::{DeviceFlags, FeatureFlags, InstallFlags, ReleaseFlags, TrustFlags};
pub use crate::release::Release;
pub use crate::remote::{KeyringKind, Location, Remote, RemoteId, RemoteKind};
pub use crate::wire::{Entry, Mismatch, Shape, WireValue};

verus! {

/// The name under which the daemon is reached on the bus.
pub const DBUS_NAME: &'static str = "org.freedesktop.fwupd";

/// The interface of the daemon.
pub const DBUS_IFACE: &'static str = "org.freedesktop.fwupd";

/// The object path of the daemon.
pub const DBUS_PATH: &'static str = "/";

/// The state of the daemon, as it reports it.
#[derive(Clone, Copy, Debug, PartialEq, Eq, Structural)]
pub enum Status {
    Unknown,
    Idle,
    Loading,
    Decompressing,
    DeviceRestart,
    DeviceWrite,
    Scheduling,
    Downloading,
    DeviceRead,
    DeviceErase,
    WaitingForAuth,
    DeviceBusy,
    Shutdown,
}

impl Status {
    /// The state that the daemon writes as `code`. A code that it does not
    /// use reads as `Idle`.
    pub open spec fn of_code(code: u8) -> Status {
        if code == 0 {
            Status::Unknown
        } else if code == 1 {
            Status::Idle
        } else if code == 2 {
            Status::Loading
        } else if code == 3 {
            Status::Decompressing
        } else if code == 4 {
            Status::DeviceRestart
        } else if code == 5 {
            Status::DeviceWrite
        } else if code == 6 {
            Status::Scheduling
        } else if code == 7 {
            Status::Downloading
        } else if code == 8 {
            Status::DeviceRead
        } else if code == 9 {
            Status::DeviceErase
        } else if code == 10 {
            Status::WaitingForAuth
        } else if code == 11 {
            Status::DeviceBusy
        } else if code == 12 {
            Status::Shutdown
        } else {
            Status::Idle
        }
    }
}

impl From<u8> for Status {
    fn from(value: u8) -> (out: Status) {
        match value {
            0 => Status::Unknown,
            1 => Status::Idle,
            2 => Status::Loading,
            3 => Status::Decompressing,
            4 => Status::DeviceRestart,
            5 => Status::DeviceWrite,
            6 => Status::Scheduling,
            7 => Status::Downloading,
            8 => Status::DeviceRead,
            9 => Status::DeviceErase,
            10 => Status::WaitingForAuth,
            11 => Status::DeviceBusy,
            12 => Status::Shutdown,
            _ => Status::Idle,
        }
    }
}

impl vstd::std_specs::convert::FromSpecImpl<u8> for Status {
    open spec fn obeys_from_spec() -> bool {
        true
    }

    open spec fn from_spec(value: u8) -> Status {
        Status::of_code(value)
    }
}

/// What a caller is told while firmware is fetched and installed.
#[derive(Clone, Copy, Debug, PartialEq, Eq, Structural)]
pub enum FlashEvent {
    /// A download begins; the size that the release announces, in bytes.
    DownloadInitiate(u64),
    /// A download goes on; the bytes received so far.
    DownloadUpdate(usize),
    /// A download has ended, whether it went well or not.
    DownloadComplete,
    /// The checksum of what was fetched is being verified.
    VerifyingChecksum,
    /// The firmware is being handed to the daemon.
    FlashInProgress,
}

/// An error that may occur when using the client.
#[derive(Debug)]
pub enum Error {
    /// Subscribing to the daemon's notifications failed.
    AddMatch,
    /// The reply to the named method did not have the expected structure.
    ArgumentMismatch(String, Mismatch),
    /// Calling the named method failed.
    Call(String),
    /// The bus could not be reached.
    Connection,
    /// What was downloaded does not match the checksum of the release.
    FirmwareChecksumMismatch,
    /// Writing the download to the cache failed.
    FirmwareCopy,
    /// The cache file could not be created.
    FirmwareCreate,
    /// The remote refused the request, or could not be reached.
    FirmwareGet,
    /// The cache file could not be opened.
    FirmwareOpen,
    /// The cache file could not be read.
    FirmwareRead,
    /// The cache file could not be rewound.
    FirmwareSeek,
    /// Reading the named property failed.
    GetProperty(String),
    /// The daemon did not answer a ping.
    Ping,
    /// The call of the named method could not be made up; the reason.
    NewMethodCall(String, String),
    /// The release has no checksum of the length of a SHA-512, SHA-256 or
    /// SHA-1 digest, so nothing that its firmware can be verified against.
    ReleaseWithoutChecksums,
    /// No remote has the identifier asked for.
    RemoteNotFound,
}

/// What an error says of itself.
pub open spec fn message_of(error: Error) -> Seq<char> {
    match error {
        Error::AddMatch => "failed to add match on client connection"@,
        Error::ArgumentMismatch(method, _) => "argument mismatch in "@ + method@ + " method"@,
        Error::Call(method) => "calling "@ + method@ + " method failed"@,
        Error::Connection => "unable to establish dbus connection"@,
        Error::FirmwareChecksumMismatch => {
            "the remote firmware which was downloaded has an invalid checksum"@
        },
        Error::FirmwareCopy => "failed to copy firmware file from remote"@,
        Error::FirmwareCreate => "failed to create firmware file in user cache"@,
        Error::FirmwareGet => "failed to GET firmware file from remote"@,
        Error::FirmwareOpen => "failed to open firmware file"@,
        Error::FirmwareRead => "failed to read firmware file"@,
        Error::FirmwareSeek => "failed to seek to beginning of firmware file"@,
        Error::GetProperty(property) => "failed to get property for "@ + property@,
        Error::Ping => "unable to ping the dbus daemon"@,
        Error::NewMethodCall(method, _) => "failed to create "@ + method@ + " method call"@,
        Error::ReleaseWithoutChecksums => {
            "release does not have any checksums to validate firmware with"@
        },
        Error::RemoteNotFound => "remote not found"@,
    }
}

impl Error {
    /// What the error says of itself, for people to read.
    pub fn message(&self) -> (text: String)
        ensures
            text@ == message_of(*self),
    {
        match self {
            Error::AddMatch => "failed to add match on client connection".to_owned(),
            Error::ArgumentMismatch(method, _) => {
                let mut text = "argument mismatch in ".to_owned();
                text.append(method.as_str());
                text.append(" method");
                text
            },
            Error::Call(method) => {
                let mut text = "calling ".to_owned();
                text.append(method.as_str());
                text.append(" method failed");
                text
            },
            Error::Connection => "unable to establish dbus connection".to_owned(),
            Error::FirmwareChecksumMismatch => {
                "the remote firmware which was downloaded has an invalid checksum".to_owned()
            },
            Error::FirmwareCopy => "failed to copy firmware file from remote".to_owned(),
            Error::FirmwareCreate => "failed to create firmware file in user cache".to_owned(),
            Error::FirmwareGet => "failed to GET firmware file from remote".to_owned(),
            Error::FirmwareOpen => "failed to open firmware file".to_owned(),
            Error::FirmwareRead => "failed to read firmware file".to_owned(),
            Error::FirmwareSeek => "failed to seek to beginning of firmware file".to_owned(),
            Error::GetProperty(property) => {
                let mut text = "failed to get property for ".to_owned();
                text.append(property.as_str());
                text
            },
            Error::Ping => "unable to ping the dbus daemon".to_owned(),
            Error::NewMethodCall(method, _) => {
                let mut text = "failed to create ".to_owned();
                text.append(method.as_str());
                text.append(" method call");
                text
            },
            Error::ReleaseWithoutChecksums => {
                "release does not have any checksums to validate firmware with".to_owned()
            },
            Error::RemoteNotFound => "remote not found".to_owned(),
        }
    }
}

} // verus!
