//! The audio-session records exchanged with the desktop host.
use vstd::prelude::*;

verus! {

/// Identifies an application session on the host (its process id).
pub type AppIdentifier = u32;

/// Identifies an audio device on the host.
pub type DeviceIdentifier = String;

#[derive(Debug, Clone, Copy, PartialEq, Eq, Structural)]
pub enum SessionType {
    Application,
    Device,
    System,
    Unknown,
}

#[derive(Debug, Clone, Copy, PartialEq, Eq, Structural)]
pub enum SessionDirection {
    Render,
    Capture,
    Unknown,
}

#[derive(Debug, Clone)]
pub struct ProcessInfo {
    pub id: AppIdentifier,
    pub name: String,
    pub path: Option<String>,
}

/// A volume level with its mute flag. The level is a fraction in `0.0..=1.0`
/// carried as the bit pattern of its `f32` value (`f32::to_bits`), so that it
/// passes through the library unchanged.
#[derive(Debug, Clone, Copy, PartialEq, Eq, Structural)]
pub struct AudioVolume {
    pub current_bits: u32,
    pub muted: bool,
}

#[derive(Debug, Clone)]
pub struct AudioApplication {
    pub process: ProcessInfo,
    pub session_type: SessionType,
    pub direction: SessionDirection,
    pub volume: AudioVolume,
    pub device_id: DeviceIdentifier,
}

#[derive(Debug, Clone)]
pub struct AudioDevice {
    pub id: DeviceIdentifier,
    pub name: String,
    pub friendly_name: String,
    pub direction: SessionDirection,
    pub is_default: bool,
    pub volume: AudioVolume,
}

} // verus!
