//! Which transport carries a command, and what its delivery means.
//!
//! The primary transport confirms the state that a command leads to. The
//! secondary one takes commands and confirms nothing, so that whoever sent
//! one has to remember what was asked for until the device is read again.
//! Nothing is remembered between calls: each command is routed on what holds
//! when it is taken.

use vstd::prelude::*;
use crate::device::Device;
use crate::error::FanError;

verus! {

#[derive(Clone, Copy, Debug, PartialEq, Eq, Structural)]
pub enum Transport {
    /// The channel that is always connected and confirms state.
    Primary,
    /// The channel of short-lived calls that confirms nothing.
    Secondary,
}

/// How a delivered command stands.
#[derive(Clone, Copy, Debug, PartialEq, Eq, Structural)]
pub enum Dispatched {
    /// The transport will report the resulting state.
    Authoritative,
    /// Nothing will confirm the command: the sender keeps what it asked for.
    Optimistic,
}

/// What a command sets a capability to.
#[derive(Clone, Copy, Debug, PartialEq, Eq, Structural)]
pub enum ControlValue {
    Integer(i64),
    Toggle(bool),
    /// A work mode by its native code, entered with a parameter.
    WorkMode { mode: i64, parameter: i64 },
}

/// A command that is ready to be sent.
#[derive(Clone, Debug)]
pub struct ControlRequest {
    pub transport: Transport,
    /// The instance key of the capability to set.
    pub instance: String,
    pub value: ControlValue,
}

impl View for ControlRequest {
    type V = (Transport, Seq<char>, ControlValue);

    open spec fn view(&self) -> (Transport, Seq<char>, ControlValue) {
        (self.transport, self.instance@, self.value)
    }
}

/// The primary transport can be used: the device supports it and its client
/// is connected at this moment.
pub open spec fn spec_primary_usable(device: Device, iot_available: bool) -> bool {
    device.iot_api_supported && iot_available
}

/// The transport that a command to `device` is offered to first.
pub open spec fn spec_select(device: Device, iot_available: bool) -> Transport {
    if spec_primary_usable(device, iot_available) {
        Transport::Primary
    } else {
        Transport::Secondary
    }
}

/// The transport that carries a command to the capability `instance`: the
/// primary one where it can be used; else the secondary one, where the device
/// advertises the capability to it; else none.
pub open spec fn spec_route(device: Device, iot_available: bool, instance: Seq<char>) -> Result<
    Transport,
    FanError,
> {
    if spec_primary_usable(device, iot_available) {
        Ok(Transport::Primary)
    } else if device.spec_capability(instance) is Some {
        Ok(Transport::Secondary)
    } else {
        Err(FanError::UnsupportedCapability)
    }
}

/// What the delivery of a command over `transport` amounts to.
pub open spec fn spec_settle(transport: Transport, delivered: bool) -> Result<
    Dispatched,
    FanError,
> {
    if !delivered {
        Err(FanError::ControlError)
    } else {
        match transport {
            Transport::Primary => Ok(Dispatched::Authoritative),
            Transport::Secondary => Ok(Dispatched::Optimistic),
        }
    }
}

/// Picks the transport that a command is offered to first. `iot_available`
/// says whether the client of the primary transport is connected now.
pub fn select(device: &Device, iot_available: bool) -> (r: Transport)
    ensures
        r == spec_select(*device, iot_available),
{
    if device.iot_api_supported && iot_available {
        Transport::Primary
    } else {
        Transport::Secondary
    }
}

/// Prepares a command that sets the capability `instance` to `value`. Fails
/// with `UnsupportedCapability` exactly when the primary transport cannot be
/// used and the device does not advertise the capability to the secondary
/// one.
pub fn dispatch(device: &Device, iot_available: bool, instance: &str, value: ControlValue) -> (r:
    Result<ControlRequest, FanError>)
    ensures
        match r {
            Ok(request) => spec_route(*device, iot_available, instance@) == Ok::<
                Transport,
                FanError,
            >(request.transport) && request.instance@ == instance@ && request.value == value,
            Err(e) => spec_route(*device, iot_available, instance@) == Err::<Transport, FanError>(
                e,
            ),
        },
{
    let transport = match select(device, iot_available) {
        Transport::Primary => Transport::Primary,
        Transport::Secondary => {
            if device.capability_by_instance(instance).is_none() {
                return Err(FanError::UnsupportedCapability);
            }
            Transport::Secondary
        },
    };
    Ok(ControlRequest { transport, instance: instance.to_owned(), value })
}

impl ControlRequest {
    /// Says how the command stands once the transport has answered. A command
    /// that was not delivered is an error and nothing more: it is not sent
    /// again from here.
    pub fn settle(&self, delivered: bool) -> (r: Result<Dispatched, FanError>)
        ensures
            r == spec_settle(self.transport, delivered),
    {
        if !delivered {
            Err(FanError::ControlError)
        } else {
            match self.transport {
                Transport::Primary => Ok(Dispatched::Authoritative),
                Transport::Secondary => Ok(Dispatched::Optimistic),
            }
        }
    }
}

} // verus!
