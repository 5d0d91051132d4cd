//! A snapshot of one device: what it advertises and what is known of its
//! state. The registry that owns devices lives outside this crate; a snapshot
//! is what a decision is taken on.

use vstd::prelude::*;
use serde_json::Value;
use crate::capability::{
    DeviceCapability, EnumOption, HttpDeviceInfo, IntegerRange, INSTANCE_FAN,
    INSTANCE_MODE_VALUE, INSTANCE_WORK_MODE,
};
use crate::search::{first_index, lemma_first_index, lemma_first_index_none, owned};

verus! {

/// The class of a device, as far as a fan entity cares.
#[derive(Clone, Copy, Debug, PartialEq, Eq, Structural)]
pub enum DeviceType {
    Fan,
    Other,
}

/// The state that was last read from a device.
#[derive(Clone, Copy, Debug)]
pub struct DeviceState {
    /// Whether the device reported being switched on.
    pub on: bool,
}

/// The state of one capability, in the JSON in which the device reported it.
#[derive(Debug)]
pub struct DeviceCapabilityState {
    /// Which physical capability this is.
    pub instance: String,
    pub state: Value,
}

/// One device, as it stood when the snapshot was taken.
#[derive(Debug)]
pub struct Device {
    pub sku: String,
    pub id: String,
    pub device_type: DeviceType,
    /// The device can be commanded over the channel that confirms state.
    pub iot_api_supported: bool,
    /// The device reports its state over the channel that confirms state.
    pub pollable_via_iot: bool,
    /// What the device advertises, where that was read.
    pub http_device_info: Option<HttpDeviceInfo>,
    /// What was last read from the device; nothing until a read succeeded.
    pub device_state: Option<DeviceState>,
    /// The speed, in percent, that the hub is to be told.
    pub target_speed: Option<u8>,
    /// The native work-mode code that the device last reported.
    pub fan_work_mode: Option<i64>,
    /// The raw state of each capability, as last reported.
    pub capability_states: Vec<DeviceCapabilityState>,
}

/// Whether a capability state has the given instance key, letter for letter.
pub open spec fn state_has_instance(instance: Seq<char>) -> spec_fn(DeviceCapabilityState) -> bool {
    |c: DeviceCapabilityState| c.instance@ == instance
}

impl Device {
    /// The first advertised capability with the given instance key.
    pub open spec fn spec_capability(&self, instance: Seq<char>) -> Option<DeviceCapability> {
        match self.http_device_info {
            Some(info) => info.spec_capability_by_instance(instance),
            None => None,
        }
    }

    /// The first advertised capability with the given instance key. A device
    /// whose description was never read advertises nothing.
    pub fn capability_by_instance(&self, instance: &str) -> (r: Option<&DeviceCapability>)
        ensures
            owned(r) == self.spec_capability(instance@),
    {
        match &self.http_device_info {
            Some(info) => info.capability_by_instance(instance),
            None => None,
        }
    }

    /// The native range of the capability that controls speed directly, where
    /// the device advertises one as a numeric range.
    pub open spec fn spec_speed_range(&self) -> Option<IntegerRange> {
        match self.spec_capability(INSTANCE_FAN@) {
            Some(capability) => capability.spec_range(),
            None => None,
        }
    }

    /// The native range of the capability that controls speed directly, where
    /// the device advertises one as a numeric range.
    pub fn speed_range(&self) -> (r: Option<&IntegerRange>)
        ensures
            owned(r) == self.spec_speed_range(),
            r matches Some(range) ==> range.wf(),
    {
        match self.capability_by_instance(INSTANCE_FAN) {
            Some(capability) => capability.range(),
            None => None,
        }
    }

    /// The named work modes that the device advertises, in its order.
    pub open spec fn spec_work_mode_options(&self) -> Option<Seq<EnumOption>> {
        match self.spec_capability(INSTANCE_WORK_MODE@) {
            Some(capability) => capability.spec_options(),
            None => None,
        }
    }

    /// The default parameter of each mode, by mode name, as far as the device
    /// advertises them.
    pub open spec fn spec_mode_defaults(&self) -> Seq<EnumOption> {
        match self.spec_capability(INSTANCE_MODE_VALUE@) {
            Some(capability) => match capability.spec_options() {
                Some(options) => options,
                None => Seq::empty(),
            },
            None => Seq::empty(),
        }
    }

    /// Whether the device was last seen switched on. A device that was never
    /// read counts as off.
    pub open spec fn spec_is_on(&self) -> bool {
        match self.device_state {
            Some(state) => state.on,
            None => false,
        }
    }

    /// The raw state of the first capability with the given instance key.
    pub open spec fn spec_state_capability(&self, instance: Seq<char>) -> Option<
        DeviceCapabilityState,
    > {
        match first_index(self.capability_states@, state_has_instance(instance)) {
            Some(i) => Some(self.capability_states@[i]),
            None => None,
        }
    }

    /// The raw state of the first capability with the given instance key.
    pub fn get_state_capability_by_instance(&self, instance: &str) -> (r: Option<
        &DeviceCapabilityState,
    >)
        ensures
            owned(r) == self.spec_state_capability(instance@),
    {
        let needle = instance.to_owned();
        let mut i: usize = 0;
        while i < self.capability_states.len()
            invariant
                i <= self.capability_states.len(),
                needle@ == instance@,
                forall|j: int|
                    0 <= j < i ==> !state_has_instance(instance@)(
                        #[trigger] self.capability_states@[j],
                    ),
            decreases self.capability_states.len() - i,
        {
            if self.capability_states[i].instance == needle {
                proof {
                    lemma_first_index(
                        self.capability_states@,
                        state_has_instance(instance@),
                        i as int,
                    );
                }
                return Some(&self.capability_states[i]);
            }
            i += 1;
        }
        proof {
            lemma_first_index_none(self.capability_states@, state_has_instance(instance@));
        }
        None
    }

    /// The snapshot with its target speed replaced and nothing else touched.
    pub open spec fn spec_with_target_speed(self, percent: u8) -> Device {
        Device { target_speed: Some(percent), ..self }
    }

    /// Records the speed that the hub is to be told. This is the one field of
    /// a snapshot that a decision may write.
    pub fn set_target_speed(&mut self, percent: u8)
        ensures
            *final(self) == old(self).spec_with_target_speed(percent),
    {
        self.target_speed = Some(percent);
    }
}

} // verus!
