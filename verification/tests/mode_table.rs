use hass_fan::capability::{
    option_value, DeviceCapability, DeviceParameters, EnumOption, HttpDeviceInfo, IntegerRange,
};
use hass_fan::device::{Device, DeviceCapabilityState, DeviceState, DeviceType};
use hass_fan::error::{FanError, NoWorkModeCapability};
use hass_fan::work_mode::ParsedWorkMode;
use serde_json::Value;

fn option(name: &str, value: i64) -> EnumOption {
    EnumOption { name: name.to_string(), value }
}

fn enumerated(instance: &str, options: Vec<EnumOption>) -> DeviceCapability {
    DeviceCapability { instance: instance.to_string(), parameters: DeviceParameters::Enum { options } }
}

fn numeric(instance: &str, min: u32, max: u32, unit: Option<&str>) -> DeviceCapability {
    DeviceCapability {
        instance: instance.to_string(),
        parameters: DeviceParameters::Integer {
            range: IntegerRange::new(min, max).unwrap(),
            unit: unit.map(|u| u.to_string()),
        },
    }
}

fn device(capabilities: Vec<DeviceCapability>) -> Device {
    Device {
        sku: "H7102".to_string(),
        id: "AA:BB:CC:DD".to_string(),
        device_type: DeviceType::Fan,
        iot_api_supported: false,
        pollable_via_iot: false,
        http_device_info: Some(HttpDeviceInfo { capabilities }),
        device_state: Some(DeviceState { on: true }),
        target_speed: None,
        fan_work_mode: None,
        capability_states: vec![],
    }
}

fn usual_modes() -> Vec<DeviceCapability> {
    vec![
        enumerated("workMode", vec![option("Normal", 1), option("Auto", 2), option("Sleep", 5)]),
        enumerated("modeValue", vec![option("Sleep", 3), option("Normal", 8)]),
    ]
}

fn json(text: &str) -> Value {
    serde_json::from_str(text).expect("valid JSON")
}

fn with_state(mut d: Device, instance: &str, state: &str) -> Device {
    d.capability_states.push(DeviceCapabilityState { instance: instance.to_string(), state: json(state) });
    d
}

fn names(table: &ParsedWorkMode) -> Vec<String> {
    table.get_mode_names()
}

#[test]
fn table_follows_descriptor_order() {
    let table = ParsedWorkMode::with_device(&device(usual_modes())).unwrap();
    assert_eq!(names(&table), vec!["Normal", "Auto", "Sleep"]);
    let modes = table.modes();
    assert_eq!(modes.len(), 3);
    assert_eq!((modes[0].value, modes[1].value, modes[2].value), (1, 2, 5));
}

#[test]
fn default_parameter_comes_from_mode_value_capability() {
    let table = ParsedWorkMode::with_device(&device(usual_modes())).unwrap();
    assert_eq!(table.mode_by_name("Normal").unwrap().default_value(), 8);
    assert_eq!(table.mode_by_name("Sleep").unwrap().default_value(), 3);
    assert_eq!(table.mode_by_name("Auto").unwrap().default_value(), 0);
    assert_eq!(table.mode_by_name("Sleep").unwrap().default_parameter, 3);
}

#[test]
fn no_work_mode_capability_fails() {
    assert_eq!(ParsedWorkMode::with_device(&device(vec![])).err(), Some(NoWorkModeCapability));
    let mut absent = device(usual_modes());
    absent.http_device_info = None;
    assert!(ParsedWorkMode::with_device(&absent).is_err());
    let only_fan = device(vec![numeric("fan", 1, 8, Some("unit.percent"))]);
    assert!(ParsedWorkMode::with_device(&only_fan).is_err());
}

#[test]
fn numeric_work_mode_capability_is_no_mode_table() {
    let d = device(vec![numeric("workMode", 1, 3, None)]);
    assert!(ParsedWorkMode::with_device(&d).is_err());
    // The first capability of that instance decides.
    let d = device(vec![
        numeric("workMode", 1, 3, None),
        enumerated("workMode", vec![option("Auto", 2)]),
    ]);
    assert!(ParsedWorkMode::with_device(&d).is_err());
}

#[test]
fn empty_enumeration_gives_empty_table() {
    let table = ParsedWorkMode::with_device(&device(vec![enumerated("workMode", vec![])])).unwrap();
    assert!(names(&table).is_empty());
    assert!(table.mode_by_name("Auto").is_none());
    assert!(table.mode_for_integer(0).is_none());
}

#[test]
fn later_duplicates_are_dropped() {
    let d = device(vec![enumerated(
        "workMode",
        vec![
            option("Low", 1),
            option("High", 2),
            option("Low", 3),
            option("Turbo", 2),
            option("Auto", 4),
        ],
    )]);
    let table = ParsedWorkMode::with_device(&d).unwrap();
    assert_eq!(names(&table), vec!["Low", "High", "Auto"]);
    assert_eq!(table.mode_by_name("Low").unwrap().value, 1);
    assert_eq!(table.mode_for_integer(2).unwrap().name, "High");
    assert!(table.mode_for_integer(3).is_none());
    assert!(table.mode_by_name("Turbo").is_none());
}

#[test]
fn name_and_value_round_trip_for_every_mode() {
    let table = ParsedWorkMode::with_device(&device(usual_modes())).unwrap();
    for mode in table.modes() {
        let by_value = table.mode_for_integer(mode.value).unwrap();
        let by_name = table.mode_by_name(&by_value.name).unwrap();
        assert_eq!(by_name.name, mode.name);
        assert_eq!(by_name.value, mode.value);
        assert_eq!(by_name.default_parameter, mode.default_parameter);
        let by_json = table.mode_for_value(&Value::from(mode.value)).unwrap();
        assert_eq!(table.mode_by_name(&by_json.name).unwrap().value, mode.value);
    }
}

#[test]
fn mode_by_name_is_case_sensitive() {
    let table = ParsedWorkMode::with_device(&device(usual_modes())).unwrap();
    assert!(table.mode_by_name("Auto").is_some());
    assert!(table.mode_by_name("auto").is_none());
    assert!(table.mode_by_name("AUTO").is_none());
    assert!(table.mode_by_name("Auto ").is_none());
    assert!(table.mode_by_name("").is_none());
}

#[test]
fn sleep_does_not_match_lowercase_sleep() {
    let d = device(vec![enumerated("workMode", vec![option("sleep", 1)])]);
    let table = ParsedWorkMode::with_device(&d).unwrap();
    assert!(table.mode_by_name("Sleep").is_none());
    assert_eq!(table.mode_by_name("sleep").unwrap().value, 1);
    let refused = hass_fan::command::mqtt_fan_set_work_mode("Sleep", &d, false);
    assert_eq!(refused.err(), Some(FanError::ModeNotFound));
}

#[test]
fn mode_for_value_reads_integers_however_encoded() {
    let table = ParsedWorkMode::with_device(&device(usual_modes())).unwrap();
    assert_eq!(table.mode_for_value(&Value::from(2i64)).unwrap().name, "Auto");
    assert_eq!(table.mode_for_value(&Value::from(2u64)).unwrap().name, "Auto");
    assert_eq!(table.mode_for_value(&Value::from(2u8)).unwrap().name, "Auto");
    assert_eq!(table.mode_for_value(&json("5")).unwrap().name, "Sleep");
    assert!(table.mode_for_value(&Value::from(7i64)).is_none());
    assert!(table.mode_for_value(&Value::from(-2i64)).is_none());
}

#[test]
fn mode_for_value_ignores_what_is_no_integer() {
    let table = ParsedWorkMode::with_device(&device(usual_modes())).unwrap();
    assert!(table.mode_for_value(&Value::from("2")).is_none());
    assert!(table.mode_for_value(&Value::Null).is_none());
    assert!(table.mode_for_value(&Value::from(true)).is_none());
    assert!(table.mode_for_value(&json("[2]")).is_none());
    assert!(table.mode_for_value(&json("{\"workMode\": 2}")).is_none());
    assert!(table.mode_for_value(&json("2.5")).is_none());
    assert!(table.mode_for_value(&Value::from(u64::MAX)).is_none());
}

#[test]
fn negative_codes_are_found() {
    let d = device(vec![enumerated("workMode", vec![option("Off", -1), option("Max", i64::MAX)])]);
    let table = ParsedWorkMode::with_device(&d).unwrap();
    assert_eq!(table.mode_for_value(&Value::from(-1i64)).unwrap().name, "Off");
    assert_eq!(table.mode_for_value(&Value::from(i64::MAX)).unwrap().name, "Max");
    assert_eq!(table.mode_for_integer(-1).unwrap().name, "Off");
}

#[test]
fn decode_state_prefers_reported_code() {
    let mut d = with_state(device(usual_modes()), "workMode", r#"{"value":{"workMode":1}}"#);
    d.fan_work_mode = Some(5);
    let table = ParsedWorkMode::with_device(&d).unwrap();
    assert_eq!(table.decode_state(&d).unwrap().unwrap().name, "Sleep");
}

#[test]
fn decode_state_reads_raw_state_through_pointer() {
    let d = with_state(
        device(usual_modes()),
        "workMode",
        r#"{"value":{"workMode":2,"modeValue":0}}"#,
    );
    let table = ParsedWorkMode::with_device(&d).unwrap();
    assert_eq!(table.decode_state(&d).unwrap().unwrap().name, "Auto");
}

#[test]
fn decode_state_takes_first_state_of_the_instance() {
    let d = with_state(
        with_state(
            with_state(device(usual_modes()), "powerSwitch", r#"{"value":1}"#),
            "workMode",
            r#"{"value":{"workMode":5}}"#,
        ),
        "workMode",
        r#"{"value":{"workMode":1}}"#,
    );
    let table = ParsedWorkMode::with_device(&d).unwrap();
    assert_eq!(table.decode_state(&d).unwrap().unwrap().name, "Sleep");
    assert!(d.get_state_capability_by_instance("powerSwitch").is_some());
    assert!(d.get_state_capability_by_instance("workmode").is_none());
}

#[test]
fn decode_state_without_any_report_gives_nothing() {
    let d = device(usual_modes());
    let table = ParsedWorkMode::with_device(&d).unwrap();
    assert!(matches!(table.decode_state(&d), Ok(None)));
    let d = with_state(device(usual_modes()), "powerSwitch", r#"{"value":1}"#);
    assert!(matches!(table.decode_state(&d), Ok(None)));
}

#[test]
fn decode_state_unreadable_is_ambiguous() {
    let table = ParsedWorkMode::with_device(&device(usual_modes())).unwrap();
    for state in [
        r#"{"value":{"workMode":9}}"#,
        r#"{"value":{"workMode":"Auto"}}"#,
        r#"{"value":{"workMode":2.0}}"#,
        r#"{"value":{"mode":2}}"#,
        r#"{"value":2}"#,
        r#"{}"#,
        r#"null"#,
    ] {
        let d = with_state(device(usual_modes()), "workMode", state);
        assert_eq!(table.decode_state(&d).err(), Some(FanError::DecodeAmbiguous), "{state}");
    }
    let mut d = device(usual_modes());
    d.fan_work_mode = Some(9);
    assert_eq!(table.decode_state(&d).err(), Some(FanError::DecodeAmbiguous));
}

#[test]
fn option_value_finds_first_of_a_name() {
    let options = vec![option("a", 1), option("b", 2), option("a", 3)];
    assert_eq!(option_value(&options, &"a".to_string()), Some(1));
    assert_eq!(option_value(&options, &"b".to_string()), Some(2));
    assert_eq!(option_value(&options, &"A".to_string()), None);
    assert_eq!(option_value(&vec![], &"a".to_string()), None);
}

#[test]
fn capability_lookup_is_first_match_and_exact() {
    let d = device(vec![
        numeric("fan", 1, 8, Some("unit.percent")),
        numeric("fan", 0, 100, None),
        enumerated("workMode", vec![option("Auto", 2)]),
    ]);
    let fan = d.capability_by_instance("fan").unwrap();
    assert_eq!(fan.range().map(|r| (r.min(), r.max())), Some((1, 8)));
    assert!(fan.options().is_none());
    assert!(d.capability_by_instance("Fan").is_none());
    assert!(d.capability_by_instance("").is_none());
    let modes = d.capability_by_instance("workMode").unwrap();
    assert!(modes.range().is_none());
    assert_eq!(modes.options().unwrap().len(), 1);
    assert_eq!(d.speed_range().map(|r| (r.min(), r.max())), Some((1, 8)));
    let info = d.http_device_info.as_ref().unwrap();
    assert!(info.capability_by_instance("workMode").is_some());
    assert!(info.capability_by_instance("oscillationToggle").is_none());
}

#[test]
fn error_descriptions() {
    assert_eq!(FanError::UnsupportedCapability.as_str(), "capability not supported by the device");
    assert_eq!(FanError::ModeNotFound.as_str(), "mode not found");
    assert_eq!(FanError::ControlError.as_str(), "the command could not be delivered");
    assert_eq!(FanError::DecodeAmbiguous.as_str(), "the reported state cannot be decoded");
}
