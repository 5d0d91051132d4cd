//! The commands that the hub sends to a fan.
//!
//! A command is taken in two steps. First it is checked against what the
//! device advertises and turned into a request for a transport; whatever is
//! wrong with it is found here, before anything is sent. Once the transport
//! has answered, the request is settled: only a delivered command that
//! nothing will confirm leaves a mark on the snapshot.

use vstd::prelude::*;
use crate::capability::{IntegerRange, INSTANCE_FAN, INSTANCE_OSCILLATION, INSTANCE_WORK_MODE};
use crate::device::Device;
use crate::error::FanError;
use crate::speed::{
    lemma_bounds_convert_exactly, lemma_from_percent_monotonic, spec_from_percent, TargetSpeed,
};
use crate::transport::{
    dispatch, select, spec_route, spec_select, spec_settle, ControlRequest, ControlValue,
    Dispatched, Transport,
};
use crate::work_mode::{
    lemma_lookup_by_name_is_exact, spec_device_modes, spec_mode_by_name, ParsedWorkMode,
};

verus! {

/// The mode that a fan is put into when the hub asks for a speed and the
/// device offers no direct speed control.
pub const MODE_AUTO: &'static str = "Auto";

/// The percentage that an integer from the hub stands for: the integer
/// itself from 0 to 100, 0 for anything below and 100 for anything above.
pub open spec fn spec_percent_of_payload(payload: i64) -> u8 {
    if payload < 0 {
        0
    } else if payload > 100 {
        100
    } else {
        payload as u8
    }
}

/// Brings an integer from the hub into the percentages. Whatever the hub
/// sent, what comes out is at most 100.
pub fn percent_of_payload(payload: i64) -> (r: u8)
    ensures
        r == spec_percent_of_payload(payload),
        r <= 100,
        0 <= payload <= 100 ==> r == payload,
{
    if payload < 0 {
        0
    } else if payload > 100 {
        100
    } else {
        payload as u8
    }
}

/// The range on which a percentage becomes the parameter of a mode: the
/// native range of the device's direct speed control where it advertises
/// one, and the percent scale itself where it does not.
pub open spec fn spec_parameter_bounds(device: Device) -> (int, int) {
    match device.spec_speed_range() {
        Some(range) => (range.spec_min(), range.spec_max()),
        None => (0, 100),
    }
}

/// Whether a speed goes to the direct speed control of the secondary
/// transport: the device does not report over the primary transport, or its
/// client is not connected, and the device advertises that control as a
/// numeric range.
pub open spec fn spec_speed_is_direct(device: Device, iot_available: bool) -> bool {
    !(device.pollable_via_iot && iot_available) && device.spec_speed_range() is Some
}

/// What a request to change the mode comes to.
pub open spec fn spec_set_work_mode(mode: Seq<char>, device: Device, iot_available: bool) -> Result<
    (Transport, Seq<char>, ControlValue),
    FanError,
> {
    match spec_device_modes(device) {
        None => Err(FanError::UnsupportedCapability),
        Some(modes) => match spec_mode_by_name(modes, mode) {
            None => Err(FanError::ModeNotFound),
            Some(work_mode) => match spec_route(device, iot_available, INSTANCE_WORK_MODE@) {
                Ok(transport) => Ok(
                    (
                        transport,
                        INSTANCE_WORK_MODE@,
                        ControlValue::WorkMode {
                            mode: work_mode.value,
                            parameter: work_mode.default_parameter,
                        },
                    ),
                ),
                Err(e) => Err(e),
            },
        },
    }
}

/// What a request to change the speed comes to.
pub open spec fn spec_set_speed(payload: i64, device: Device, iot_available: bool) -> Result<
    (Transport, Seq<char>, ControlValue),
    FanError,
> {
    let percent = spec_percent_of_payload(payload) as int;
    if spec_speed_is_direct(device, iot_available) {
        let range = device.spec_speed_range().unwrap();
        Ok(
            (
                Transport::Secondary,
                INSTANCE_FAN@,
                ControlValue::Integer(
                    spec_from_percent(percent, range.spec_min(), range.spec_max()) as i64,
                ),
            ),
        )
    } else {
        match spec_device_modes(device) {
            None => Err(FanError::UnsupportedCapability),
            Some(modes) => match spec_mode_by_name(modes, MODE_AUTO@) {
                None => Err(FanError::ModeNotFound),
                Some(work_mode) => match spec_route(device, iot_available, INSTANCE_WORK_MODE@) {
                    Ok(transport) => Ok(
                        (
                            transport,
                            INSTANCE_WORK_MODE@,
                            ControlValue::WorkMode {
                                mode: work_mode.value,
                                parameter: spec_from_percent(
                                    percent,
                                    spec_parameter_bounds(device).0,
                                    spec_parameter_bounds(device).1,
                                ) as i64,
                            },
                        ),
                    ),
                    Err(e) => Err(e),
                },
            },
        }
    }
}

/// What a request to change the oscillation comes to.
pub open spec fn spec_set_oscillation(oscillate: bool, device: Device, iot_available: bool) -> Result<
    (Transport, Seq<char>, ControlValue),
    FanError,
> {
    if device.spec_capability(INSTANCE_OSCILLATION@) is None {
        Err(FanError::UnsupportedCapability)
    } else {
        Ok((spec_select(device, iot_available), INSTANCE_OSCILLATION@, ControlValue::Toggle(oscillate)))
    }
}

/// The snapshot after a speed command was settled: the percentage asked for
/// is kept as the target speed exactly when the command was delivered over a
/// transport that confirms nothing.
pub open spec fn spec_after_set_speed(
    payload: i64,
    transport: Transport,
    delivered: bool,
    device: Device,
) -> Device {
    if spec_settle(transport, delivered) == Ok::<Dispatched, FanError>(Dispatched::Optimistic) {
        device.spec_with_target_speed(spec_percent_of_payload(payload))
    } else {
        device
    }
}

/// Handles a request of the hub to put the fan into the mode called `mode`.
///
/// The name has to be that of a mode of the device, letter for letter. The
/// request that comes back sets the work mode to the mode's native code, with
/// the mode's default parameter. It fails with `UnsupportedCapability` where
/// the device has no work modes, or none that any usable transport can set,
/// and with `ModeNotFound` where it has none of that name.
pub fn mqtt_fan_set_work_mode(mode: &str, device: &Device, iot_available: bool) -> (r: Result<
    ControlRequest,
    FanError,
>)
    ensures
        match r {
            Ok(request) => spec_set_work_mode(mode@, *device, iot_available) == Ok::<
                (Transport, Seq<char>, ControlValue),
                FanError,
            >(request@),
            Err(e) => spec_set_work_mode(mode@, *device, iot_available) == Err::<
                (Transport, Seq<char>, ControlValue),
                FanError,
            >(e),
        },
{
    let work_modes = match ParsedWorkMode::with_device(device) {
        Ok(work_modes) => work_modes,
        Err(_) => {
            return Err(FanError::UnsupportedCapability);
        },
    };
    let work_mode = match work_modes.mode_by_name(mode) {
        Some(work_mode) => work_mode,
        None => {
            return Err(FanError::ModeNotFound);
        },
    };
    let value = ControlValue::WorkMode {
        mode: work_mode.value,
        parameter: work_mode.default_value(),
    };
    dispatch(device, iot_available, INSTANCE_WORK_MODE, value)
}

/// Handles a request of the hub to run the fan at `payload` percent. A
/// payload below 0 counts as 0 and one above 100 as 100, so that no code
/// outside the device's range is ever asked for.
///
/// Where the primary transport does not serve the device now and the device
/// advertises a direct speed control, the request sets that control, over the
/// secondary transport, to the native code of the percentage. Otherwise the
/// fan is put into its mode `Auto` with the percentage, converted, as the
/// parameter; this fails with `UnsupportedCapability` where the device has no
/// work modes and with `ModeNotFound` where it has no mode `Auto`.
pub fn mqtt_fan_set_speed(payload: i64, device: &Device, iot_available: bool) -> (r: Result<
    ControlRequest,
    FanError,
>)
    ensures
        match r {
            Ok(request) => spec_set_speed(payload, *device, iot_available) == Ok::<
                (Transport, Seq<char>, ControlValue),
                FanError,
            >(request@),
            Err(e) => spec_set_speed(payload, *device, iot_available) == Err::<
                (Transport, Seq<char>, ControlValue),
                FanError,
            >(e),
        },
{
    let percent = percent_of_payload(payload);
    let use_iot = device.pollable_via_iot && iot_available;
    let range = device.speed_range();

    if !use_iot {
        match range {
            Some(range) => {
                let code = TargetSpeed::from_percent(percent, range).into_inner();
                return Ok(
                    ControlRequest {
                        transport: Transport::Secondary,
                        instance: INSTANCE_FAN.to_owned(),
                        value: ControlValue::Integer(code as i64),
                    },
                );
            },
            None => {},
        }
    }

    let work_modes = match ParsedWorkMode::with_device(device) {
        Ok(work_modes) => work_modes,
        Err(_) => {
            return Err(FanError::UnsupportedCapability);
        },
    };
    let work_mode = match work_modes.mode_by_name(MODE_AUTO) {
        Some(work_mode) => work_mode,
        None => {
            return Err(FanError::ModeNotFound);
        },
    };
    let scale = IntegerRange::percent_scale();
    let value = match range {
        Some(range) => TargetSpeed::from_percent(percent, range),
        None => TargetSpeed::from_percent(percent, &scale),
    };
    dispatch(
        device,
        iot_available,
        INSTANCE_WORK_MODE,
        ControlValue::WorkMode { mode: work_mode.value, parameter: value.into_inner() as i64 },
    )
}

/// Handles a request of the hub to switch the oscillation on or off. Fails
/// with `UnsupportedCapability` exactly when the device advertises no
/// oscillation.
pub fn mqtt_fan_set_oscillation(oscillate: bool, device: &Device, iot_available: bool) -> (r:
    Result<ControlRequest, FanError>)
    ensures
        match r {
            Ok(request) => spec_set_oscillation(oscillate, *device, iot_available) == Ok::<
                (Transport, Seq<char>, ControlValue),
                FanError,
            >(request@),
            Err(e) => spec_set_oscillation(oscillate, *device, iot_available) == Err::<
                (Transport, Seq<char>, ControlValue),
                FanError,
            >(e),
        },
{
    if device.capability_by_instance(INSTANCE_OSCILLATION).is_none() {
        return Err(FanError::UnsupportedCapability);
    }
    Ok(
        ControlRequest {
            transport: select(device, iot_available),
            instance: INSTANCE_OSCILLATION.to_owned(),
            value: ControlValue::Toggle(oscillate),
        },
    )
}

/// Settles a speed command once the transport has answered.
///
/// A command that was not delivered fails with `ControlError` and leaves the
/// snapshot as it was. One that was delivered over the secondary transport
/// is kept in the snapshot as the target speed, since nothing else will say
/// what the fan was set to; what is kept is a percentage, never above 100.
/// One that was delivered over the primary transport needs no trace: the
/// device will report.
pub fn settle_set_speed(
    payload: i64,
    request: &ControlRequest,
    delivered: bool,
    device: &mut Device,
) -> (r: Result<Dispatched, FanError>)
    ensures
        r == spec_settle(request.transport, delivered),
        *final(device) == spec_after_set_speed(payload, request.transport, delivered, *old(device)),
        r is Err ==> *final(device) == *old(device),
        r == Ok::<Dispatched, FanError>(Dispatched::Optimistic) ==> (
        final(device).target_speed matches Some(kept) && kept <= 100),
{
    let outcome = request.settle(delivered);
    match outcome {
        Ok(Dispatched::Optimistic) => {
            device.set_target_speed(percent_of_payload(payload));
        },
        Ok(Dispatched::Authoritative) => {},
        Err(_) => {},
    }
    outcome
}

/// A mode that is asked for by a name that no mode of the device bears is
/// refused with `ModeNotFound`, whatever the transports.
pub proof fn lemma_unknown_mode_is_refused(mode: Seq<char>, device: Device, iot_available: bool)
    requires
        spec_device_modes(device) matches Some(modes) && forall|i: int|
            0 <= i < modes.len() ==> (#[trigger] modes[i]).name@ != mode,
    ensures
        spec_set_work_mode(mode, device, iot_available) == Err::<
            (Transport, Seq<char>, ControlValue),
            FanError,
        >(FanError::ModeNotFound),
{
    lemma_lookup_by_name_is_exact(spec_device_modes(device).unwrap(), mode);
}

/// Whatever integer the hub sends, the request asks for a code of the range
/// that the percentage is converted on, and what a settled command keeps is a
/// percentage.
pub proof fn lemma_speed_stays_in_bounds(payload: i64, min: int, max: int)
    requires
        min <= max,
    ensures
        spec_percent_of_payload(payload) <= 100,
        min <= spec_from_percent(spec_percent_of_payload(payload) as int, min, max) <= max,
{
    let percent = spec_percent_of_payload(payload) as int;
    lemma_from_percent_monotonic(0, percent, min, max);
    lemma_from_percent_monotonic(percent, 100, min, max);
    lemma_bounds_convert_exactly(min, max);
}

/// A speed command that was not delivered never touches the snapshot, and a
/// delivered one touches at most its target speed.
pub proof fn lemma_failed_command_leaves_no_trace(
    payload: i64,
    transport: Transport,
    device: Device,
)
    ensures
        spec_after_set_speed(payload, transport, false, device) == device,
        spec_after_set_speed(payload, Transport::Primary, true, device) == device,
        spec_after_set_speed(payload, Transport::Secondary, true, device)
            == device.spec_with_target_speed(spec_percent_of_payload(payload)),
{
}

} // verus!
