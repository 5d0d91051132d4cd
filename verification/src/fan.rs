//! The fan entity: what the hub is told about a fan, and what is read off a
//! device to tell it.

use vstd::prelude::*;
use crate::capability::{DeviceParameters, IntegerRange, INSTANCE_FAN, UNIT_PERCENT};
use crate::device::{Device, DeviceType};
use crate::text::{concat3, decimal, spec_decimal};
use crate::transport::spec_primary_usable;
use crate::search::owned;
use crate::work_mode::{spec_device_modes, spec_mode_names, spec_observed_mode, ParsedWorkMode};

verus! {

pub const DEVICE_CLASS_FAN: &'static str = "fan";

/// The payload that reports a fan as switched on.
pub const PAYLOAD_ON: &'static str = "ON";

/// The payload that reports a fan as switched off.
pub const PAYLOAD_OFF: &'static str = "OFF";

/// The program that announces an entity, as the hub records it.
#[derive(Clone, Debug)]
pub struct Origin {
    pub name: String,
    pub sw_version: String,
    pub url: String,
}

/// The device that an entity belongs to, as the hub lists it.
#[derive(Clone, Debug)]
pub struct DeviceInfo {
    pub name: String,
    pub manufacturer: String,
    pub model: String,
    pub sw_version: Option<String>,
    pub suggested_area: Option<String>,
    pub via_device: Option<String>,
    pub identifiers: Vec<String>,
    /// Pairs of a kind of connection and an address on it.
    pub connections: Vec<(String, String)>,
}

/// What every entity tells the hub about itself.
#[derive(Clone, Debug)]
pub struct EntityConfig {
    pub availability_topic: String,
    /// The name of the entity, where it differs from that of its device.
    pub name: Option<String>,
    pub device_class: Option<String>,
    pub origin: Origin,
    pub device: DeviceInfo,
    pub unique_id: String,
    pub entity_category: Option<String>,
    pub icon: Option<String>,
}

/// What a fan entity tells the hub about itself: where to send commands,
/// where to listen, and what the fan can do.
#[derive(Clone, Debug)]
pub struct FanConfig {
    pub base: EntityConfig,
    /// The hub publishes here to switch the fan on or off.
    pub command_topic: String,
    /// The hub publishes here to change the oscillation.
    pub oscillation_command_topic: String,
    /// The oscillation is reported here.
    pub oscillation_state_topic: String,
    /// The hub publishes here to change the mode.
    pub preset_mode_command_topic: String,
    /// The mode is reported here.
    pub preset_mode_state_topic: String,
    /// The hub publishes here to change the speed.
    pub percentage_command_topic: String,
    /// The speed is reported here.
    pub percentage_state_topic: String,
    pub speed_range_max: Option<u8>,
    pub speed_range_min: Option<u8>,
    /// Whether commands go out over a transport that confirms nothing.
    pub optimistic: bool,
    /// The names of the modes that the fan supports, in its own order.
    pub preset_modes: Vec<String>,
    /// Whether the fan is on is reported here.
    pub state_topic: String,
}

/// The fan entity of one device.
#[derive(Clone, Debug)]
pub struct Fan {
    pub fan: FanConfig,
    pub device_id: String,
}

/// One message for the hub.
#[derive(Clone, Debug)]
pub struct Publication {
    pub topic: String,
    pub payload: String,
}

impl View for Publication {
    type V = (Seq<char>, Seq<char>);

    open spec fn view(&self) -> (Seq<char>, Seq<char>) {
        (self.topic@, self.payload@)
    }
}

/// What one look at a device gives: the messages for the hub, in the order in
/// which they are to go out, and the speed that was guessed and written into
/// the snapshot, if one was.
#[derive(Clone, Debug)]
pub struct StateReport {
    pub publications: Vec<Publication>,
    pub latched: Option<u8>,
}

/// One thing to do to carry a report out.
#[derive(Clone, Debug)]
pub enum ReportStep {
    /// Send a message to the hub.
    Publish(Publication),
    /// Write the guessed speed into the registry that owns the device.
    Latch(u8),
}

/// Where the write of a guess stands among the messages of a report: behind
/// the first message, which says whether the fan is on, and so before the
/// message that reports the guess.
pub open spec fn spec_latch_position(messages: int) -> int {
    if messages == 0 {
        0
    } else {
        1
    }
}

/// The steps that carry a report out, in order: every message in its place,
/// and the write of the guess, where there is one, at its position.
pub open spec fn spec_steps(publications: Seq<Publication>, latched: Option<u8>) -> Seq<
    ReportStep,
> {
    match latched {
        Some(guess) => {
            let at = spec_latch_position(publications.len() as int);
            Seq::new(
                publications.len() + 1,
                |i: int|
                    if i < at {
                        ReportStep::Publish(publications[i])
                    } else if i == at {
                        ReportStep::Latch(guess)
                    } else {
                        ReportStep::Publish(publications[i - 1])
                    },
            )
        },
        None => Seq::new(publications.len(), |i: int| ReportStep::Publish(publications[i])),
    }
}

impl StateReport {
    /// The steps that carry the report out, to be taken one after the other;
    /// a step that fails ends the run, so that a guess is written only once
    /// the message before it has gone out.
    pub fn steps(&self) -> (r: Vec<ReportStep>)
        ensures
            r@ == spec_steps(self.publications@, self.latched),
    {
        let ghost all = spec_steps(self.publications@, self.latched);
        let mut steps: Vec<ReportStep> = Vec::new();
        let mut i: usize = 0;
        while i < self.publications.len()
            invariant
                i <= self.publications.len(),
                all == spec_steps(self.publications@, self.latched),
                steps@.len() == i + (if i > 0 && self.latched is Some {
                    1int
                } else {
                    0int
                }),
                forall|j: int| 0 <= j < steps@.len() ==> steps@[j] == all[j],
            decreases self.publications.len() - i,
        {
            let publication = &self.publications[i];
            let step = ReportStep::Publish(
                Publication {
                    topic: publication.topic.clone(),
                    payload: publication.payload.clone(),
                },
            );
            assert(step == ReportStep::Publish(self.publications@[i as int]));
            steps.push(step);
            if i == 0 {
                match self.latched {
                    Some(guess) => {
                        steps.push(ReportStep::Latch(guess));
                    },
                    None => {},
                }
            }
            i += 1;
        }
        if i == 0 {
            match self.latched {
                Some(guess) => {
                    steps.push(ReportStep::Latch(guess));
                },
                None => {},
            }
        }
        assert(steps@ =~= all);
        steps
    }
}

/// The messages as plain text, topic first.
pub open spec fn spec_messages(publications: Seq<Publication>) -> Seq<(Seq<char>, Seq<char>)> {
    publications.map_values(|p: Publication| p@)
}

/// A topic of this entity's own: under the fan prefix, the device, then the
/// leaf.
pub open spec fn spec_fan_topic(topic_id: Seq<char>, leaf: Seq<char>) -> Seq<char> {
    "gv2mqtt/fan/"@ + topic_id + leaf
}

/// The range of the capability that controls speed directly, where the device
/// advertises it as a numeric range in percent.
pub open spec fn spec_percent_range(device: Device) -> Option<IntegerRange> {
    match device.spec_capability(INSTANCE_FAN@) {
        Some(capability) => match capability.parameters {
            DeviceParameters::Integer { range, unit } => match unit {
                Some(u) => if u@ == UNIT_PERCENT@ {
                    Some(range)
                } else {
                    None
                },
                None => None,
            },
            DeviceParameters::Enum { .. } => None,
        },
        None => None,
    }
}

/// A bound as the hub is given it: the bound itself up to 255, which is the
/// most that the configuration can hold, and 255 for anything above.
pub open spec fn spec_saturated_byte(n: int) -> u8 {
    if n > 255 {
        255
    } else if n < 0 {
        0
    } else {
        n as u8
    }
}

fn saturated_byte(n: u32) -> (r: u8)
    ensures
        r == spec_saturated_byte(n as int),
{
    if n > 255 {
        255
    } else {
        n as u8
    }
}

/// The mode names that the hub is offered: those of the device's mode table,
/// and none for a device without one.
pub open spec fn spec_preset_modes(device: Device) -> Seq<String> {
    match spec_device_modes(device) {
        Some(modes) => spec_mode_names(modes),
        None => Seq::empty(),
    }
}

/// The name of the mode that a device is seen in, if its reported state names
/// one of its modes.
pub open spec fn spec_observed_mode_name(device: Device) -> Option<Seq<char>> {
    match spec_device_modes(device) {
        Some(modes) => match spec_observed_mode(modes, device) {
            Some(mode) => Some(mode.name@),
            None => None,
        },
        None => None,
    }
}

fn percent_range(device: &Device) -> (r: Option<&IntegerRange>)
    ensures
        owned(r) == spec_percent_range(*device),
        r matches Some(range) ==> range.wf(),
{
    let capability = match device.capability_by_instance(INSTANCE_FAN) {
        Some(capability) => capability,
        None => {
            return None;
        },
    };
    match &capability.parameters {
        DeviceParameters::Integer { range, unit } => match unit {
            Some(u) => {
                let percent = UNIT_PERCENT.to_owned();
                if *u == percent {
                    let _ = range.min();
                    Some(range)
                } else {
                    None
                }
            },
            None => None,
        },
        DeviceParameters::Enum { .. } => None,
    }
}

impl Fan {
    /// Describes the fan entity of `device`. `topic_id` is the device's
    /// identifier in a form that is safe inside a topic, `availability_topic`
    /// the topic on which the bridge reports that it is alive, `origin` and
    /// `device_info` what the hub is to record of the bridge and of the
    /// device, and `iot_available` whether the client of the primary
    /// transport is connected now.
    ///
    /// A speed range is advertised where the device offers direct speed
    /// control in percent. Its bounds are advertised in order; a bound above
    /// 255 is advertised as 255.
    pub fn new(
        device: &Device,
        topic_id: &str,
        availability_topic: &str,
        origin: Origin,
        device_info: DeviceInfo,
        iot_available: bool,
    ) -> (r: Fan)
        ensures
            r.device_id@ == device.id@,
            r.fan.base.availability_topic@ == availability_topic@,
            r.fan.base.origin == origin,
            r.fan.base.device == device_info,
            r.fan.base.name is None <==> device.device_type == DeviceType::Fan,
            r.fan.base.name matches Some(name) ==> name@ == "Fan"@,
            r.fan.base.device_class matches Some(class) && class@ == DEVICE_CLASS_FAN@,
            r.fan.base.unique_id@ == "gv2mqtt-"@ + topic_id@ + "-fan"@,
            r.fan.base.entity_category is None,
            r.fan.base.icon is None,
            r.fan.command_topic@ == "gv2mqtt/switch/"@ + topic_id@ + "/command/powerSwitch"@,
            r.fan.oscillation_command_topic@ == spec_fan_topic(topic_id@, "/set-oscillation"@),
            r.fan.oscillation_state_topic@ == spec_fan_topic(topic_id@, "/notify-oscillation"@),
            r.fan.state_topic@ == spec_fan_topic(topic_id@, "/state"@),
            r.fan.preset_mode_command_topic@ == spec_fan_topic(topic_id@, "/set-mode"@),
            r.fan.preset_mode_state_topic@ == spec_fan_topic(topic_id@, "/notify-mode"@),
            r.fan.percentage_command_topic@ == spec_fan_topic(topic_id@, "/set-speed"@),
            r.fan.percentage_state_topic@ == spec_fan_topic(topic_id@, "/notify-speed"@),
            r.fan.speed_range_min == match spec_percent_range(*device) {
                Some(range) => Some(spec_saturated_byte(range.spec_min())),
                None => None,
            },
            r.fan.speed_range_max == match spec_percent_range(*device) {
                Some(range) => Some(spec_saturated_byte(range.spec_max())),
                None => None,
            },
            r.fan.speed_range_min is Some <==> r.fan.speed_range_max is Some,
            r.fan.speed_range_min matches Some(low) ==> (r.fan.speed_range_max matches Some(high)
                && low <= high),
            r.fan.optimistic == !spec_primary_usable(*device, iot_available),
            r.fan.preset_modes@ == spec_preset_modes(*device),
    {
        let use_iot = device.iot_api_supported && iot_available;
        let optimistic = !use_iot;

        let preset_modes = match ParsedWorkMode::with_device(device) {
            Ok(work_mode) => work_mode.get_mode_names(),
            Err(_) => Vec::new(),
        };

        let mut speed_range_min: Option<u8> = None;
        let mut speed_range_max: Option<u8> = None;
        match percent_range(device) {
            Some(range) => {
                speed_range_min = Some(saturated_byte(range.min()));
                speed_range_max = Some(saturated_byte(range.max()));
            },
            None => {},
        }

        let name = match device.device_type {
            DeviceType::Fan => None,
            DeviceType::Other => Some("Fan".to_owned()),
        };

        Fan {
            fan: FanConfig {
                base: EntityConfig {
                    availability_topic: availability_topic.to_owned(),
                    name,
                    device_class: Some(DEVICE_CLASS_FAN.to_owned()),
                    origin,
                    device: device_info,
                    unique_id: concat3("gv2mqtt-", topic_id, "-fan"),
                    entity_category: None,
                    icon: None,
                },
                // The power state goes through the general switch handler.
                command_topic: concat3("gv2mqtt/switch/", topic_id, "/command/powerSwitch"),
                oscillation_command_topic: concat3("gv2mqtt/fan/", topic_id, "/set-oscillation"),
                oscillation_state_topic: concat3("gv2mqtt/fan/", topic_id, "/notify-oscillation"),
                preset_mode_command_topic: concat3("gv2mqtt/fan/", topic_id, "/set-mode"),
                preset_mode_state_topic: concat3("gv2mqtt/fan/", topic_id, "/notify-mode"),
                percentage_command_topic: concat3("gv2mqtt/fan/", topic_id, "/set-speed"),
                percentage_state_topic: concat3("gv2mqtt/fan/", topic_id, "/notify-speed"),
                speed_range_max,
                speed_range_min,
                optimistic,
                preset_modes,
                state_topic: concat3("gv2mqtt/fan/", topic_id, "/state"),
            },
            device_id: device.id.clone(),
        }
    }

    /// The configuration to announce to the hub. It is fixed when the entity
    /// is made and reads no device state, so that announcing it again, after
    /// a reconnection, announces the same.
    pub fn publish_config(&self) -> (r: &FanConfig)
        ensures
            *r == self.fan,
    {
        &self.fan
    }

    /// The payload that says whether the device is on. A device that was
    /// never read is reported as off, never as unknown.
    pub open spec fn spec_power_payload(device: Device) -> Seq<char> {
        if device.spec_is_on() {
            PAYLOAD_ON@
        } else {
            PAYLOAD_OFF@
        }
    }

    /// The speed to report for a device of which none is known: the lower
    /// bound of the advertised range, and 0 without a range.
    pub open spec fn spec_guess(&self) -> u8 {
        match self.fan.speed_range_min {
            Some(min) => min,
            None => 0,
        }
    }

    /// The speed that a report gives: the known one, else the guess.
    pub open spec fn spec_reported_speed(&self, device: Device) -> u8 {
        match device.target_speed {
            Some(speed) => speed,
            None => self.spec_guess(),
        }
    }

    /// The guess that a report writes into the snapshot: none where a speed
    /// is known.
    pub open spec fn spec_latched(&self, device: Device) -> Option<u8> {
        match device.target_speed {
            Some(_) => None,
            None => Some(self.spec_guess()),
        }
    }

    /// The snapshot as a report leaves it: a missing target speed is filled
    /// with the guess, and nothing else is touched.
    pub open spec fn spec_after_report(&self, device: Device) -> Device {
        match self.spec_latched(device) {
            Some(guess) => device.spec_with_target_speed(guess),
            None => device,
        }
    }

    /// The messages of a report: power, then speed, then the mode where the
    /// reported state names one.
    pub open spec fn spec_state_publications(&self, device: Device) -> Seq<
        (Seq<char>, Seq<char>),
    > {
        let power = (self.fan.state_topic@, Self::spec_power_payload(device));
        let speed = (
            self.fan.percentage_state_topic@,
            spec_decimal(self.spec_reported_speed(device) as nat),
        );
        match spec_observed_mode_name(device) {
            Some(name) => seq![power, speed, (self.fan.preset_mode_state_topic@, name)],
            None => seq![power, speed],
        }
    }

    /// Reads the state of `device` and says what to tell the hub.
    ///
    /// Three things are reported, in this order. Whether the fan is on: a
    /// device that was never read is off. The speed in percent: where none is
    /// known, the guess is reported and written into the snapshot, so that it
    /// is guessed once and is the known speed from then on. The mode: only
    /// where the reported state names one of the device's modes; a mode is
    /// never made up, and a state that cannot be read is passed over. A mode
    /// code that the device wrote with a fraction part cannot be read here:
    /// the caller folds such numbers to integers before the call.
    ///
    /// `steps` of the report says in which order to send the messages and to
    /// write the guess.
    pub fn notify_state(&self, device: &mut Device) -> (r: StateReport)
        ensures
            spec_messages(r.publications@) == self.spec_state_publications(*old(device)),
            r.latched == self.spec_latched(*old(device)),
            *final(device) == self.spec_after_report(*old(device)),
            old(device).device_state is None ==> r.publications@[0]@ == (
                self.fan.state_topic@,
                PAYLOAD_OFF@,
            ),
    {
        let mode_name: Option<String> = match ParsedWorkMode::with_device(device) {
            Ok(work_modes) => match work_modes.decode_state(device) {
                Ok(Some(mode)) => Some(mode.name.clone()),
                Ok(None) => None,
                Err(_) => None,
            },
            Err(_) => None,
        };
        assert(match mode_name {
            Some(name) => spec_observed_mode_name(*device) == Some(name@),
            None => spec_observed_mode_name(*device) is None,
        });

        let mut publications: Vec<Publication> = Vec::new();

        let is_on = match &device.device_state {
            Some(device_state) => device_state.on,
            None => false,
        };
        let power = if is_on {
            PAYLOAD_ON
        } else {
            PAYLOAD_OFF
        };
        publications.push(
            Publication { topic: self.fan.state_topic.clone(), payload: power.to_owned() },
        );

        let latched = match device.target_speed {
            Some(speed) => {
                publications.push(
                    Publication {
                        topic: self.fan.percentage_state_topic.clone(),
                        payload: decimal(speed),
                    },
                );
                None
            },
            None => {
                // The hub keeps its speed control disabled until it has seen
                // a value, so one is made up, once.
                let guessed_value = match self.fan.speed_range_min {
                    Some(min) => min,
                    None => 0,
                };
                device.set_target_speed(guessed_value);
                publications.push(
                    Publication {
                        topic: self.fan.percentage_state_topic.clone(),
                        payload: decimal(guessed_value),
                    },
                );
                Some(guessed_value)
            },
        };

        match mode_name {
            Some(name) => {
                publications.push(
                    Publication { topic: self.fan.preset_mode_state_topic.clone(), payload: name },
                );
            },
            None => {},
        }
        assert(spec_messages(publications@) =~= self.spec_state_publications(*old(device)));
        StateReport { publications, latched }
    }
}

/// A report that had to guess the speed does so once: it writes the guess
/// into the snapshot, and a second report on the snapshot it left guesses
/// nothing, changes nothing and says the same as the first.
pub proof fn lemma_guess_latches_once(fan: Fan, device: Device)
    requires
        device.target_speed is None,
    ensures
        fan.spec_latched(device) == Some(fan.spec_guess()),
        fan.spec_after_report(device).target_speed == Some(fan.spec_guess()),
        fan.spec_latched(fan.spec_after_report(device)) is None,
        fan.spec_after_report(fan.spec_after_report(device)) == fan.spec_after_report(device),
        fan.spec_state_publications(fan.spec_after_report(device)) == fan.spec_state_publications(
            device,
        ),
{
}

/// Whatever the snapshot, a second report on what the first one left guesses
/// nothing, changes nothing and says the same as the first.
pub proof fn lemma_report_is_idempotent(fan: Fan, device: Device)
    ensures
        fan.spec_latched(fan.spec_after_report(device)) is None,
        fan.spec_after_report(fan.spec_after_report(device)) == fan.spec_after_report(device),
        fan.spec_state_publications(fan.spec_after_report(device)) == fan.spec_state_publications(
            device,
        ),
{
}

/// A guess is written behind the message that says whether the fan is on and
/// before the message that reports the guess; the messages keep their order,
/// and without a guess the steps are the messages.
pub proof fn lemma_guess_is_written_before_it_is_reported(
    publications: Seq<Publication>,
    guess: u8,
)
    requires
        publications.len() >= 2,
    ensures
        spec_steps(publications, Some(guess)).len() == publications.len() + 1,
        spec_steps(publications, Some(guess))[0] == ReportStep::Publish(publications[0]),
        spec_steps(publications, Some(guess))[1] == ReportStep::Latch(guess),
        forall|i: int|
            1 <= i < publications.len() ==> #[trigger] spec_steps(publications, Some(guess))[i
                + 1] == ReportStep::Publish(publications[i]),
        spec_steps(publications, None).len() == publications.len(),
        forall|i: int|
            0 <= i < publications.len() ==> #[trigger] spec_steps(publications, None)[i]
                == ReportStep::Publish(publications[i]),
{
}

/// A device that was never read is reported as off.
pub proof fn lemma_unread_device_is_off(fan: Fan, device: Device)
    requires
        device.device_state is None,
    ensures
        fan.spec_state_publications(device)[0] == (fan.fan.state_topic@, PAYLOAD_OFF@),
{
}

} // verus!
