//! Capability descriptors: what a device advertises as controllable.

use vstd::prelude::*;
use crate::search::{first_index, lemma_first_index, lemma_first_index_none, owned};

verus! {

/// Instance key of the capability that offers direct speed control.
pub const INSTANCE_FAN: &'static str = "fan";

/// Instance key of the enumerated work-mode capability.
pub const INSTANCE_WORK_MODE: &'static str = "workMode";

/// Instance key of the capability that carries each mode's default parameter.
pub const INSTANCE_MODE_VALUE: &'static str = "modeValue";

/// Instance key of the oscillation toggle.
pub const INSTANCE_OSCILLATION: &'static str = "oscillationToggle";

/// Unit string of a range that is expressed in percent.
pub const UNIT_PERCENT: &'static str = "unit.percent";

/// A closed range of device-native codes. The lower bound never exceeds the
/// upper bound: `new` is the only way to make one.
#[derive(Clone, Copy, Debug)]
pub struct IntegerRange {
    min: u32,
    max: u32,
}

impl IntegerRange {
    #[verifier::type_invariant]
    closed spec fn ordered(self) -> bool {
        self.min <= self.max
    }

    /// The lower bound.
    pub closed spec fn spec_min(self) -> int {
        self.min as int
    }

    /// The upper bound.
    pub closed spec fn spec_max(self) -> int {
        self.max as int
    }

    /// Validity of a range as a mathematical value: bounds in order and
    /// representable.
    pub open spec fn wf(self) -> bool {
        0 <= self.spec_min() <= self.spec_max() <= u32::MAX
    }

    /// Builds the range `[min, max]`, or nothing when the bounds are out of
    /// order.
    pub fn new(min: u32, max: u32) -> (r: Option<IntegerRange>)
        ensures
            r is Some <==> min <= max,
            r matches Some(range) ==> range.wf() && range.spec_min() == min && range.spec_max()
                == max,
    {
        if min <= max {
            Some(IntegerRange { min, max })
        } else {
            None
        }
    }

    /// The range `[0, 100]`, on which a native code and a percent coincide.
    pub fn percent_scale() -> (r: IntegerRange)
        ensures
            r.wf(),
            r.spec_min() == 0,
            r.spec_max() == 100,
    {
        IntegerRange { min: 0, max: 100 }
    }

    /// The lower bound.
    pub fn min(&self) -> (r: u32)
        ensures
            r == self.spec_min(),
            self.wf(),
    {
        proof {
            use_type_invariant(self);
        }
        self.min
    }

    /// The upper bound.
    pub fn max(&self) -> (r: u32)
        ensures
            r == self.spec_max(),
            self.wf(),
    {
        proof {
            use_type_invariant(self);
        }
        self.max
    }

}

/// One named value of an enumerated capability.
#[derive(Clone, Debug)]
pub struct EnumOption {
    /// The name shown to people.
    pub name: String,
    /// The code that the device expects.
    pub value: i64,
}

/// What a capability controls: a numeric range with its unit, or a list of
/// named values in the order in which the device advertises them.
#[derive(Clone, Debug)]
pub enum DeviceParameters {
    Integer { range: IntegerRange, unit: Option<String> },
    Enum { options: Vec<EnumOption> },
}

/// A controllable parameter that a device advertises.
#[derive(Clone, Debug)]
pub struct DeviceCapability {
    /// Which physical capability this is.
    pub instance: String,
    pub parameters: DeviceParameters,
}

/// The capabilities that a device advertises to the transport that accepts
/// commands without confirming them.
#[derive(Clone, Debug)]
pub struct HttpDeviceInfo {
    pub capabilities: Vec<DeviceCapability>,
}

/// Whether a capability has the given instance key, letter for letter.
pub open spec fn has_instance(instance: Seq<char>) -> spec_fn(DeviceCapability) -> bool {
    |c: DeviceCapability| c.instance@ == instance
}

/// Whether an option has the given name, letter for letter.
pub open spec fn has_option_name(name: Seq<char>) -> spec_fn(EnumOption) -> bool {
    |o: EnumOption| o.name@ == name
}

/// The value of the first option called `name`, if there is one.
pub open spec fn spec_option_value(options: Seq<EnumOption>, name: Seq<char>) -> Option<i64> {
    match first_index(options, has_option_name(name)) {
        Some(i) => Some(options[i].value),
        None => None,
    }
}

/// The value of the first option called `name`, if there is one.
pub fn option_value(options: &Vec<EnumOption>, name: &String) -> (r: Option<i64>)
    ensures
        r == spec_option_value(options@, name@),
{
    let mut i: usize = 0;
    while i < options.len()
        invariant
            i <= options.len(),
            forall|j: int| 0 <= j < i ==> !has_option_name(name@)(#[trigger] options@[j]),
        decreases options.len() - i,
    {
        if options[i].name == *name {
            proof {
                lemma_first_index(options@, has_option_name(name@), i as int);
            }
            return Some(options[i].value);
        }
        i += 1;
    }
    proof {
        lemma_first_index_none(options@, has_option_name(name@));
    }
    None
}

impl DeviceCapability {
    /// The numeric range of this capability, if it is one.
    pub open spec fn spec_range(&self) -> Option<IntegerRange> {
        match self.parameters {
            DeviceParameters::Integer { range, .. } => Some(range),
            DeviceParameters::Enum { .. } => None,
        }
    }

    /// The numeric range of this capability, if it is one.
    pub fn range(&self) -> (r: Option<&IntegerRange>)
        ensures
            owned(r) == self.spec_range(),
            r matches Some(range) ==> range.wf(),
    {
        match &self.parameters {
            DeviceParameters::Integer { range, .. } => {
                let _ = range.min();
                Some(range)
            },
            DeviceParameters::Enum { .. } => None,
        }
    }

    /// The named values of this capability, if it is enumerated.
    pub open spec fn spec_options(&self) -> Option<Seq<EnumOption>> {
        match self.parameters {
            DeviceParameters::Integer { .. } => None,
            DeviceParameters::Enum { options } => Some(options@),
        }
    }

    /// The named values of this capability, if it is enumerated.
    pub fn options(&self) -> (r: Option<&Vec<EnumOption>>)
        ensures
            r is Some == self.spec_options() is Some,
            r matches Some(options) ==> self.spec_options() == Some(options@),
    {
        match &self.parameters {
            DeviceParameters::Integer { .. } => None,
            DeviceParameters::Enum { options } => Some(options),
        }
    }
}

impl HttpDeviceInfo {
    /// The first capability with the given instance key, if there is one.
    pub open spec fn spec_capability_by_instance(&self, instance: Seq<char>) -> Option<
        DeviceCapability,
    > {
        match first_index(self.capabilities@, has_instance(instance)) {
            Some(i) => Some(self.capabilities@[i]),
            None => None,
        }
    }

    /// The first capability with the given instance key, if there is one.
    /// Keys are compared letter for letter.
    pub fn capability_by_instance(&self, instance: &str) -> (r: Option<&DeviceCapability>)
        ensures
            owned(r) == self.spec_capability_by_instance(instance@),
    {
        let needle = instance.to_owned();
        let mut i: usize = 0;
        while i < self.capabilities.len()
            invariant
                i <= self.capabilities.len(),
                needle@ == instance@,
                forall|j: int|
                    0 <= j < i ==> !has_instance(instance@)(#[trigger] self.capabilities@[j]),
            decreases self.capabilities.len() - i,
        {
            if self.capabilities[i].instance == needle {
                proof {
                    lemma_first_index(self.capabilities@, has_instance(instance@), i as int);
                }
                return Some(&self.capabilities[i]);
            }
            i += 1;
        }
        proof {
            lemma_first_index_none(self.capabilities@, has_instance(instance@));
        }
        None
    }
}

} // verus!
