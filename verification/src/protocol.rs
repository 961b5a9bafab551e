//! Messages exchanged with the desktop host over the serial link.
use vstd::prelude::*;
use crate::vtype::{AppIdentifier, AudioApplication, AudioDevice, AudioVolume, DeviceIdentifier};

verus! {

/// What a volume or mute command is about: an application or a device.
#[derive(Debug, Clone)]
pub enum Identifier {
    App(AppIdentifier),
    Device(DeviceIdentifier),
}

impl Identifier {
    /// An identical copy.
    pub fn duplicate(&self) -> (r: Self)
        ensures
            r == *self,
    {
        match self {
            Identifier::App(a) => Identifier::App(*a),
            Identifier::Device(d) => Identifier::Device(d.clone()),
        }
    }
}

/// A request from the device to the host.
#[derive(Debug, Clone)]
pub enum Command {
    GetPlaybackDevices,
    /// Sets the volume of `id` to `percent` percent.
    SetVolume { id: Identifier, percent: u32 },
    SetMute { id: Identifier, mute: bool },
}

/// A reply from the host.
#[derive(Debug, Clone)]
pub enum Response {
    Volume { id: Identifier, volume: AudioVolume },
    ApplicationList { device_id: DeviceIdentifier, apps: Vec<AppIdentifier> },
    Application(AudioApplication),
    Icon { app_id: AppIdentifier, data: String },
    DeviceList(Vec<AudioDevice>),
    Error { message: String, request: String },
}

/// The kind of change that the host pushes on its own.
#[derive(Debug, Clone, Copy, PartialEq, Eq, Structural)]
pub enum ChangeType {
    AudioVolume,
    IconPathChange,
    NameChange,
    StateChange,
}

/// An unsolicited change notification from the host.
#[derive(Debug, Clone, Copy, PartialEq, Eq, Structural)]
pub struct UpdateChange {
    pub change: ChangeType,
}

/// One framed message on the link.
#[derive(Debug, Clone)]
pub enum Envelope {
    Command(Command),
    Response(Response),
    Event(UpdateChange),
}

} // verus!
