//! Why a command or a decoding did not go through.

use vstd::prelude::*;

verus! {

#[derive(Clone, Copy, Debug, PartialEq, Eq, Structural)]
pub enum FanError {
    /// The device lacks the capability that the command needs. Trying again
    /// will not help.
    UnsupportedCapability,
    /// The hub named a mode that the device does not advertise.
    ModeNotFound,
    /// The transport did not deliver the command.
    ControlError,
    /// The device reported a state that cannot be read as one of its modes.
    DecodeAmbiguous,
}

/// The device advertises no enumerated work-mode capability.
#[derive(Clone, Copy, Debug, PartialEq, Eq, Structural)]
pub struct NoWorkModeCapability;

impl FanError {
    /// A short description for people.
    pub fn as_str(&self) -> (r: &'static str)
        ensures
            r@ == match *self {
                FanError::UnsupportedCapability => "capability not supported by the device"@,
                FanError::ModeNotFound => "mode not found"@,
                FanError::ControlError => "the command could not be delivered"@,
                FanError::DecodeAmbiguous => "the reported state cannot be decoded"@,
            },
    {
        match self {
            FanError::UnsupportedCapability => "capability not supported by the device",
            FanError::ModeNotFound => "mode not found",
            FanError::ControlError => "the command could not be delivered",
            FanError::DecodeAmbiguous => "the reported state cannot be decoded",
        }
    }
}

} // verus!
