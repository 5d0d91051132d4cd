//! The mode table of a device: its work modes by name and by native code.
//!
//! The table is rebuilt from the capability descriptors whenever it is
//! needed and never changed afterwards. It keeps the order in which the
//! device advertises its modes, and holds no name and no code twice: of
//! several options that share either, the first one stands.

use vstd::prelude::*;
use serde_json::Value;
use crate::capability::{
    option_value, spec_option_value, EnumOption, INSTANCE_MODE_VALUE, INSTANCE_WORK_MODE,
};
use crate::device::Device;
use crate::error::{FanError, NoWorkModeCapability};
use crate::json::{json_integer, json_pointer_target};
use crate::search::{first_index, lemma_first_index, lemma_first_index_none, owned};

verus! {

/// Where, inside the raw state of the work-mode capability, the active mode
/// stands.
pub const WORK_MODE_POINTER: &'static str = "/value/workMode";

/// One work mode of a device.
#[derive(Clone, Debug)]
pub struct WorkMode {
    /// The name under which the hub knows the mode.
    pub name: String,
    /// The code by which the device knows it.
    pub value: i64,
    /// The parameter that the mode is entered with when none is asked for.
    pub default_parameter: i64,
}

impl WorkMode {
    /// The parameter that the mode is entered with when none is asked for.
    pub fn default_value(&self) -> (r: i64)
        ensures
            r == self.default_parameter,
    {
        self.default_parameter
    }
}

/// Whether a mode has the given name, letter for letter.
pub open spec fn has_name(name: Seq<char>) -> spec_fn(WorkMode) -> bool {
    |m: WorkMode| m.name@ == name
}

/// Whether a mode has the given native code.
pub open spec fn has_value(value: i64) -> spec_fn(WorkMode) -> bool {
    |m: WorkMode| m.value == value
}

/// No two modes share a name, and no two share a native code.
pub open spec fn distinct(modes: Seq<WorkMode>) -> bool {
    forall|i: int, j: int|
        #![trigger modes[i], modes[j]]
        0 <= i < j < modes.len() ==> modes[i].name@ != modes[j].name@ && modes[i].value
            != modes[j].value
}

/// Whether an option may join the modes gathered so far: neither its name nor
/// its code is taken.
pub open spec fn spec_admits(modes: Seq<WorkMode>, option: EnumOption) -> bool {
    first_index(modes, has_name(option.name@)) is None && first_index(
        modes,
        has_value(option.value),
    ) is None
}

/// The mode that an option describes. Its default parameter is the value of
/// the first entry of `defaults` under the mode's name, and 0 without one.
pub open spec fn spec_mode_of(option: EnumOption, defaults: Seq<EnumOption>) -> WorkMode {
    WorkMode {
        name: option.name,
        value: option.value,
        default_parameter: match spec_option_value(defaults, option.name@) {
            Some(v) => v,
            None => 0,
        },
    }
}

/// The table that the first `n` options give: each option in turn joins it
/// unless an earlier one holds its name or its code.
pub open spec fn spec_resolve(options: Seq<EnumOption>, defaults: Seq<EnumOption>, n: nat) -> Seq<
    WorkMode,
>
    decreases n,
{
    if n == 0 {
        Seq::empty()
    } else {
        let before = spec_resolve(options, defaults, (n - 1) as nat);
        let option = options[n - 1];
        if spec_admits(before, option) {
            before.push(spec_mode_of(option, defaults))
        } else {
            before
        }
    }
}

/// The first of `modes` with the given name.
pub open spec fn spec_mode_by_name(modes: Seq<WorkMode>, name: Seq<char>) -> Option<WorkMode> {
    match first_index(modes, has_name(name)) {
        Some(i) => Some(modes[i]),
        None => None,
    }
}

/// The first of `modes` with the given native code.
pub open spec fn spec_mode_for_integer(modes: Seq<WorkMode>, value: i64) -> Option<WorkMode> {
    match first_index(modes, has_value(value)) {
        Some(i) => Some(modes[i]),
        None => None,
    }
}

/// The one of `modes` whose native code is the integer that a JSON value
/// holds.
pub open spec fn spec_mode_for_value(modes: Seq<WorkMode>, value: Value) -> Option<WorkMode> {
    match json_integer(value) {
        Some(n) => spec_mode_for_integer(modes, n),
        None => None,
    }
}

/// The names of `modes`, in their order.
pub open spec fn spec_mode_names(modes: Seq<WorkMode>) -> Seq<String> {
    Seq::new(modes.len(), |i: int| modes[i].name)
}

/// The mode table of a device, where it advertises an enumerated work-mode
/// capability.
pub open spec fn spec_device_modes(device: Device) -> Option<Seq<WorkMode>> {
    match device.spec_work_mode_options() {
        Some(options) => Some(
            spec_resolve(options, device.spec_mode_defaults(), options.len()),
        ),
        None => None,
    }
}

/// Whether the device has reported anything that names its active mode: a
/// native code, or a raw state of its work-mode capability.
pub open spec fn spec_mode_reported(device: Device) -> bool {
    device.fan_work_mode is Some || device.spec_state_capability(INSTANCE_WORK_MODE@) is Some
}

/// The active mode, as far as the reported state names one of `modes`. The
/// native code decides where one was reported. Otherwise the raw state of the
/// work-mode capability is looked into.
pub open spec fn spec_observed_mode(modes: Seq<WorkMode>, device: Device) -> Option<WorkMode> {
    match device.fan_work_mode {
        Some(n) => spec_mode_for_integer(modes, n),
        None => match device.spec_state_capability(INSTANCE_WORK_MODE@) {
            Some(capability) => match json_pointer_target(capability.state, WORK_MODE_POINTER@) {
                Some(target) => spec_mode_for_value(modes, target),
                None => None,
            },
            None => None,
        },
    }
}

fn find_name(modes: &Vec<WorkMode>, name: &String) -> (r: Option<usize>)
    ensures
        match r {
            Some(i) => first_index(modes@, has_name(name@)) == Some(i as int) && i < modes.len(),
            None => first_index(modes@, has_name(name@)) is None,
        },
{
    let mut i: usize = 0;
    while i < modes.len()
        invariant
            i <= modes.len(),
            forall|j: int| 0 <= j < i ==> !has_name(name@)(#[trigger] modes@[j]),
        decreases modes.len() - i,
    {
        if modes[i].name == *name {
            proof {
                lemma_first_index(modes@, has_name(name@), i as int);
            }
            return Some(i);
        }
        i += 1;
    }
    proof {
        lemma_first_index_none(modes@, has_name(name@));
    }
    None
}

fn find_value(modes: &Vec<WorkMode>, value: i64) -> (r: Option<usize>)
    ensures
        match r {
            Some(i) => first_index(modes@, has_value(value)) == Some(i as int) && i < modes.len(),
            None => first_index(modes@, has_value(value)) is None,
        },
{
    let mut i: usize = 0;
    while i < modes.len()
        invariant
            i <= modes.len(),
            forall|j: int| 0 <= j < i ==> !has_value(value)(#[trigger] modes@[j]),
        decreases modes.len() - i,
    {
        if modes[i].value == value {
            proof {
                lemma_first_index(modes@, has_value(value), i as int);
            }
            return Some(i);
        }
        i += 1;
    }
    proof {
        lemma_first_index_none(modes@, has_value(value));
    }
    None
}

/// The mode table of a device.
#[derive(Debug)]
pub struct ParsedWorkMode {
    modes: Vec<WorkMode>,
}

impl ParsedWorkMode {
    #[verifier::type_invariant]
    closed spec fn unambiguous(self) -> bool {
        distinct(self.modes@)
    }

    /// The modes, in the order in which the device advertises them.
    pub closed spec fn view(&self) -> Seq<WorkMode> {
        self.modes@
    }

    /// Validity of a table as a mathematical value: no name and no code
    /// occurs twice.
    pub open spec fn wf(&self) -> bool {
        distinct(self@)
    }

    /// Builds the table of a device from its enumerated work-mode capability.
    /// Fails exactly when the device advertises none: the feature is then
    /// absent, not out of order.
    pub fn with_device(device: &Device) -> (r: Result<ParsedWorkMode, NoWorkModeCapability>)
        ensures
            match r {
                Ok(table) => spec_device_modes(*device) == Some(table@) && table.wf(),
                Err(_) => spec_device_modes(*device) is None,
            },
    {
        let options = match device.capability_by_instance(INSTANCE_WORK_MODE) {
            Some(capability) => match capability.options() {
                Some(options) => options,
                None => {
                    return Err(NoWorkModeCapability);
                },
            },
            None => {
                return Err(NoWorkModeCapability);
            },
        };
        let none: Vec<EnumOption> = Vec::new();
        let defaults: &Vec<EnumOption> = match device.capability_by_instance(INSTANCE_MODE_VALUE) {
            Some(capability) => match capability.options() {
                Some(defaults) => defaults,
                None => &none,
            },
            None => &none,
        };
        assert(defaults@ == device.spec_mode_defaults());
        let mut modes: Vec<WorkMode> = Vec::new();
        let mut i: usize = 0;
        while i < options.len()
            invariant
                i <= options.len(),
                modes@ == spec_resolve(options@, defaults@, i as nat),
                distinct(modes@),
            decreases options.len() - i,
        {
            let option = &options[i];
            let name_free = find_name(&modes, &option.name).is_none();
            let value_free = find_value(&modes, option.value).is_none();
            if name_free && value_free {
                let default_parameter = match option_value(defaults, &option.name) {
                    Some(v) => v,
                    None => 0,
                };
                proof {
                    lemma_first_index_none(modes@, has_name(option.name@));
                    lemma_first_index_none(modes@, has_value(option.value));
                }
                modes.push(WorkMode { name: option.name.clone(), value: option.value, default_parameter });
            }
            i += 1;
        }
        Ok(ParsedWorkMode { modes })
    }

    /// The modes, in the order in which the device advertises them.
    pub fn modes(&self) -> (r: &Vec<WorkMode>)
        ensures
            r@ == self@,
            self.wf(),
    {
        proof {
            use_type_invariant(self);
        }
        &self.modes
    }

    /// The mode called `name`. Names are compared letter for letter: a name
    /// that differs from every mode's name, if only in case, finds nothing.
    pub fn mode_by_name(&self, name: &str) -> (r: Option<&WorkMode>)
        ensures
            owned(r) == spec_mode_by_name(self@, name@),
    {
        let needle = name.to_owned();
        match find_name(&self.modes, &needle) {
            Some(i) => Some(&self.modes[i]),
            None => None,
        }
    }

    /// The mode with the native code `value`.
    pub fn mode_for_integer(&self, value: i64) -> (r: Option<&WorkMode>)
        ensures
            owned(r) == spec_mode_for_integer(self@, value),
    {
        match find_value(&self.modes, value) {
            Some(i) => Some(&self.modes[i]),
            None => None,
        }
    }

    /// The mode whose native code a reported JSON value holds. The value
    /// matches by the integer it holds, whether it was written signed or
    /// unsigned; a value that holds no integer matches nothing.
    ///
    /// A whole number that the device wrote with a fraction part holds no
    /// integer in this sense and is passed over. A caller that has to match
    /// such numbers folds them to integers before the call: that takes
    /// arithmetic on fractions, which this crate does not do.
    pub fn mode_for_value(&self, value: &Value) -> (r: Option<&WorkMode>)
        ensures
            owned(r) == spec_mode_for_value(self@, *value),
    {
        match value.as_i64() {
            Some(n) => self.mode_for_integer(n),
            None => None,
        }
    }

    /// The names of the modes, in the order of the table.
    pub fn get_mode_names(&self) -> (r: Vec<String>)
        ensures
            r@ == spec_mode_names(self@),
    {
        let mut names: Vec<String> = Vec::new();
        let mut i: usize = 0;
        while i < self.modes.len()
            invariant
                i <= self.modes.len(),
                names@.len() == i,
                forall|j: int| 0 <= j < i ==> names@[j] == #[trigger] self.modes@[j].name,
            decreases self.modes.len() - i,
        {
            names.push(self.modes[i].name.clone());
            i += 1;
        }
        assert(names@ =~= spec_mode_names(self@));
        names
    }

    /// Reads the active mode off the reported state. Gives nothing where the
    /// device has reported nothing, and fails where it has reported a state
    /// that names no mode of the table. No mode is ever guessed.
    ///
    /// The raw state is read as `mode_for_value` reads it: a code that the
    /// device wrote with a fraction part has to be folded to an integer by
    /// the caller beforehand, and is a state that names no mode otherwise.
    pub fn decode_state(&self, device: &Device) -> (r: Result<Option<&WorkMode>, FanError>)
        ensures
            match r {
                Ok(Some(mode)) => spec_observed_mode(self@, *device) == Some(*mode),
                Ok(None) => !spec_mode_reported(*device),
                Err(e) => e == FanError::DecodeAmbiguous && spec_mode_reported(*device)
                    && spec_observed_mode(self@, *device) is None,
            },
            !spec_mode_reported(*device) ==> spec_observed_mode(self@, *device) is None,
    {
        let found = match device.fan_work_mode {
            Some(n) => self.mode_for_integer(n),
            None => match device.get_state_capability_by_instance(INSTANCE_WORK_MODE) {
                Some(capability) => match capability.state.pointer(WORK_MODE_POINTER) {
                    Some(target) => self.mode_for_value(target),
                    None => None,
                },
                None => {
                    return Ok(None);
                },
            },
        };
        match found {
            Some(mode) => Ok(Some(mode)),
            None => Err(FanError::DecodeAmbiguous),
        }
    }
}

/// The table holds no name and no code twice, whatever the options were.
pub proof fn lemma_resolve_distinct(options: Seq<EnumOption>, defaults: Seq<EnumOption>, n: nat)
    requires
        n <= options.len(),
    ensures
        distinct(spec_resolve(options, defaults, n)),
    decreases n,
{
    if n > 0 {
        lemma_resolve_distinct(options, defaults, (n - 1) as nat);
        let before = spec_resolve(options, defaults, (n - 1) as nat);
        let option = options[n - 1];
        lemma_first_index_none(before, has_name(option.name@));
        lemma_first_index_none(before, has_value(option.value));
    }
}

/// Where the options themselves share no name and no code, the table mirrors
/// them entry for entry, in their order.
pub proof fn lemma_resolve_keeps_order(options: Seq<EnumOption>, defaults: Seq<EnumOption>, n: nat)
    requires
        n <= options.len(),
        forall|i: int, j: int|
            #![trigger options[i], options[j]]
            0 <= i < j < options.len() ==> options[i].name@ != options[j].name@
                && options[i].value != options[j].value,
    ensures
        spec_resolve(options, defaults, n).len() == n,
        forall|i: int|
            0 <= i < n ==> #[trigger] spec_resolve(options, defaults, n)[i] == spec_mode_of(
                options[i],
                defaults,
            ),
    decreases n,
{
    if n > 0 {
        lemma_resolve_keeps_order(options, defaults, (n - 1) as nat);
        let before = spec_resolve(options, defaults, (n - 1) as nat);
        let option = options[n - 1];
        assert forall|j: int| 0 <= j < before.len() implies !has_name(option.name@)(
            #[trigger] before[j],
        ) && !has_value(option.value)(before[j]) by {
            assert(before[j] == spec_mode_of(options[j], defaults));
        }
        lemma_first_index_none(before, has_name(option.name@));
        lemma_first_index_none(before, has_value(option.value));
    }
}

/// Every mode of a table is found again under its own code and under its own
/// name, so that looking a mode up by code and the result by name ends at the
/// mode one started from.
pub proof fn lemma_name_value_round_trip(modes: Seq<WorkMode>, i: int)
    requires
        distinct(modes),
        0 <= i < modes.len(),
    ensures
        spec_mode_for_integer(modes, modes[i].value) == Some(modes[i]),
        spec_mode_by_name(modes, modes[i].name@) == Some(modes[i]),
        spec_mode_by_name(modes, spec_mode_for_integer(modes, modes[i].value).unwrap().name@)
            == Some(modes[i]),
{
    lemma_first_index(modes, has_value(modes[i].value), i);
    lemma_first_index(modes, has_name(modes[i].name@), i);
}

/// The same through a reported JSON value: one that holds the code of a mode
/// finds that mode.
pub proof fn lemma_json_value_round_trip(modes: Seq<WorkMode>, i: int, value: Value)
    requires
        distinct(modes),
        0 <= i < modes.len(),
        json_integer(value) == Some(modes[i].value),
    ensures
        spec_mode_for_value(modes, value) == Some(modes[i]),
        spec_mode_by_name(modes, spec_mode_for_value(modes, value).unwrap().name@) == Some(
            modes[i],
        ),
{
    lemma_name_value_round_trip(modes, i);
}

/// Lookup by name is exact: what it finds bears the name asked for, letter
/// for letter, and it finds nothing exactly when no mode bears it. A name
/// that differs from a mode's name only in case is another name.
pub proof fn lemma_lookup_by_name_is_exact(modes: Seq<WorkMode>, name: Seq<char>)
    ensures
        spec_mode_by_name(modes, name) matches Some(mode) ==> mode.name@ == name,
        spec_mode_by_name(modes, name) is None <==> forall|i: int|
            0 <= i < modes.len() ==> (#[trigger] modes[i]).name@ != name,
{
    lemma_first_index_none(modes, has_name(name));
}

} // verus!
