use hass_fan::capability::{
    DeviceCapability, DeviceParameters, EnumOption, HttpDeviceInfo, IntegerRange,
};
use hass_fan::device::{Device, DeviceCapabilityState, DeviceState, DeviceType};
use hass_fan::fan::{
    DeviceInfo, Fan, Origin, Publication, ReportStep, StateReport, DEVICE_CLASS_FAN,
};
use serde_json::Value;

fn option(name: &str, value: i64) -> EnumOption {
    EnumOption { name: name.to_string(), value }
}

fn work_modes() -> DeviceCapability {
    DeviceCapability {
        instance: "workMode".to_string(),
        parameters: DeviceParameters::Enum {
            options: vec![option("Normal", 1), option("Auto", 2), option("Sleep", 5)],
        },
    }
}

fn fan_range(min: u32, max: u32, unit: Option<&str>) -> DeviceCapability {
    DeviceCapability {
        instance: "fan".to_string(),
        parameters: DeviceParameters::Integer {
            range: IntegerRange::new(min, max).unwrap(),
            unit: unit.map(|u| u.to_string()),
        },
    }
}

fn device(capabilities: Vec<DeviceCapability>) -> Device {
    Device {
        sku: "H7102".to_string(),
        id: "AA:BB:CC:DD".to_string(),
        device_type: DeviceType::Fan,
        iot_api_supported: true,
        pollable_via_iot: true,
        http_device_info: Some(HttpDeviceInfo { capabilities }),
        device_state: Some(DeviceState { on: true }),
        target_speed: None,
        fan_work_mode: None,
        capability_states: vec![],
    }
}

fn origin() -> Origin {
    Origin {
        name: "bridge".to_string(),
        sw_version: "1.2.3".to_string(),
        url: "https://example.org/bridge".to_string(),
    }
}

fn device_info() -> DeviceInfo {
    DeviceInfo {
        name: "Tower fan".to_string(),
        manufacturer: "Govee".to_string(),
        model: "H7102".to_string(),
        sw_version: None,
        suggested_area: Some("Bedroom".to_string()),
        via_device: Some("bridge".to_string()),
        identifiers: vec!["gv2mqtt-AABBCCDD".to_string()],
        connections: vec![("mac".to_string(), "AA:BB:CC:DD".to_string())],
    }
}

fn make(d: &Device, topic_id: &str, availability: &str, iot_available: bool) -> Fan {
    Fan::new(d, topic_id, availability, origin(), device_info(), iot_available)
}

fn entity(d: &Device) -> Fan {
    make(d, "AABBCCDD", "gv2mqtt/availability", true)
}

fn publication(topic: &str, payload: &str) -> Publication {
    Publication { topic: topic.to_string(), payload: payload.to_string() }
}

fn plain(steps: &[ReportStep]) -> Vec<String> {
    steps
        .iter()
        .map(|step| match step {
            ReportStep::Publish(p) => format!("{}={}", p.topic, p.payload),
            ReportStep::Latch(guess) => format!("latch {guess}"),
        })
        .collect()
}

fn messages(publications: &[Publication]) -> Vec<(String, String)> {
    publications.iter().map(|p| (p.topic.clone(), p.payload.clone())).collect()
}

fn message(topic: &str, payload: &str) -> (String, String) {
    (topic.to_string(), payload.to_string())
}

#[test]
fn config_names_every_topic() {
    let fan = entity(&device(vec![work_modes()]));
    let c = &fan.fan;
    assert_eq!(c.command_topic, "gv2mqtt/switch/AABBCCDD/command/powerSwitch");
    assert_eq!(c.oscillation_command_topic, "gv2mqtt/fan/AABBCCDD/set-oscillation");
    assert_eq!(c.oscillation_state_topic, "gv2mqtt/fan/AABBCCDD/notify-oscillation");
    assert_eq!(c.state_topic, "gv2mqtt/fan/AABBCCDD/state");
    assert_eq!(c.preset_mode_command_topic, "gv2mqtt/fan/AABBCCDD/set-mode");
    assert_eq!(c.preset_mode_state_topic, "gv2mqtt/fan/AABBCCDD/notify-mode");
    assert_eq!(c.percentage_command_topic, "gv2mqtt/fan/AABBCCDD/set-speed");
    assert_eq!(c.percentage_state_topic, "gv2mqtt/fan/AABBCCDD/notify-speed");
    assert_eq!(c.base.unique_id, "gv2mqtt-AABBCCDD-fan");
    assert_eq!(c.base.availability_topic, "gv2mqtt/availability");
    assert_eq!(c.base.device_class.as_deref(), Some("fan"));
    assert_eq!(DEVICE_CLASS_FAN, "fan");
    assert!(c.base.entity_category.is_none());
    assert!(c.base.icon.is_none());
    assert_eq!(fan.device_id, "AA:BB:CC:DD");
}

#[test]
fn entity_of_a_fan_takes_the_device_name() {
    let mut d = device(vec![]);
    assert!(entity(&d).fan.base.name.is_none());
    d.device_type = DeviceType::Other;
    assert_eq!(entity(&d).fan.base.name.as_deref(), Some("Fan"));
}

#[test]
fn optimistic_unless_primary_transport_is_usable() {
    let mut d = device(vec![]);
    assert!(!make(&d, "x", "a", true).fan.optimistic);
    assert!(make(&d, "x", "a", false).fan.optimistic);
    d.iot_api_supported = false;
    assert!(make(&d, "x", "a", true).fan.optimistic);
    assert!(make(&d, "x", "a", false).fan.optimistic);
}

#[test]
fn preset_modes_follow_the_mode_table() {
    assert_eq!(entity(&device(vec![work_modes()])).fan.preset_modes, vec!["Normal", "Auto", "Sleep"]);
    assert!(entity(&device(vec![])).fan.preset_modes.is_empty());
    let mut d = device(vec![work_modes()]);
    d.http_device_info = None;
    assert!(entity(&d).fan.preset_modes.is_empty());
}

#[test]
fn speed_range_is_advertised_only_in_percent() {
    let c = entity(&device(vec![fan_range(1, 8, Some("unit.percent"))])).fan;
    assert_eq!((c.speed_range_min, c.speed_range_max), (Some(1), Some(8)));
    let c = entity(&device(vec![fan_range(1, 8, Some("unit.rpm"))])).fan;
    assert_eq!((c.speed_range_min, c.speed_range_max), (None, None));
    let c = entity(&device(vec![fan_range(1, 8, None)])).fan;
    assert_eq!((c.speed_range_min, c.speed_range_max), (None, None));
    let c = entity(&device(vec![work_modes()])).fan;
    assert_eq!((c.speed_range_min, c.speed_range_max), (None, None));
}

#[test]
fn speed_range_bounds_saturate_and_stay_in_order() {
    let c = entity(&device(vec![fan_range(1, 300, Some("unit.percent"))])).fan;
    assert_eq!((c.speed_range_min, c.speed_range_max), (Some(1), Some(255)));
    let c = entity(&device(vec![fan_range(1, 256, Some("unit.percent"))])).fan;
    assert_eq!((c.speed_range_min, c.speed_range_max), (Some(1), Some(255)));
    let c = entity(&device(vec![fan_range(0, 255, Some("unit.percent"))])).fan;
    assert_eq!((c.speed_range_min, c.speed_range_max), (Some(0), Some(255)));
    let c = entity(&device(vec![fan_range(256, 256, Some("unit.percent"))])).fan;
    assert_eq!((c.speed_range_min, c.speed_range_max), (Some(255), Some(255)));
    let c = entity(&device(vec![fan_range(300, u32::MAX, Some("unit.percent"))])).fan;
    assert_eq!((c.speed_range_min, c.speed_range_max), (Some(255), Some(255)));
    for (min, max) in [(0u32, 0u32), (1, 8), (99, 100), (200, 400), (255, 256), (1000, 70000)] {
        let c = entity(&device(vec![fan_range(min, max, Some("unit.percent"))])).fan;
        assert!(c.speed_range_min.unwrap() <= c.speed_range_max.unwrap());
    }
}

#[test]
fn config_carries_origin_and_device() {
    let c = entity(&device(vec![work_modes()])).fan.base;
    assert_eq!(c.origin.name, "bridge");
    assert_eq!(c.origin.sw_version, "1.2.3");
    assert_eq!(c.origin.url, "https://example.org/bridge");
    assert_eq!(c.device.name, "Tower fan");
    assert_eq!(c.device.manufacturer, "Govee");
    assert_eq!(c.device.model, "H7102");
    assert_eq!(c.device.sw_version, None);
    assert_eq!(c.device.suggested_area.as_deref(), Some("Bedroom"));
    assert_eq!(c.device.via_device.as_deref(), Some("bridge"));
    assert_eq!(c.device.identifiers, vec!["gv2mqtt-AABBCCDD"]);
    assert_eq!(c.device.connections, vec![("mac".to_string(), "AA:BB:CC:DD".to_string())]);
}

#[test]
fn steps_write_the_guess_between_power_and_speed() {
    let mut d = device(vec![work_modes(), fan_range(3, 8, Some("unit.percent"))]);
    d.fan_work_mode = Some(2);
    let fan = entity(&d);
    let first = fan.notify_state(&mut d);
    assert_eq!(
        plain(&first.steps()),
        vec![
            "gv2mqtt/fan/AABBCCDD/state=ON",
            "latch 3",
            "gv2mqtt/fan/AABBCCDD/notify-speed=3",
            "gv2mqtt/fan/AABBCCDD/notify-mode=Auto",
        ]
    );
    let second = fan.notify_state(&mut d);
    assert_eq!(
        plain(&second.steps()),
        vec![
            "gv2mqtt/fan/AABBCCDD/state=ON",
            "gv2mqtt/fan/AABBCCDD/notify-speed=3",
            "gv2mqtt/fan/AABBCCDD/notify-mode=Auto",
        ]
    );
}

#[test]
fn steps_of_any_report() {
    let none = StateReport { publications: vec![], latched: None };
    assert!(none.steps().is_empty());
    let only_guess = StateReport { publications: vec![], latched: Some(7) };
    assert_eq!(plain(&only_guess.steps()), vec!["latch 7"]);
    let one = StateReport { publications: vec![publication("a", "1")], latched: Some(7) };
    assert_eq!(plain(&one.steps()), vec!["a=1", "latch 7"]);
    let three = StateReport {
        publications: vec![publication("a", "1"), publication("b", "2"), publication("c", "3")],
        latched: None,
    };
    assert_eq!(plain(&three.steps()), vec!["a=1", "b=2", "c=3"]);
    let three = StateReport { latched: Some(0), ..three };
    assert_eq!(plain(&three.steps()), vec!["a=1", "latch 0", "b=2", "c=3"]);
}

#[test]
fn publish_config_hands_out_the_same_config_every_time() {
    let fan = entity(&device(vec![work_modes(), fan_range(1, 8, Some("unit.percent"))]));
    let first = fan.publish_config();
    let second = fan.publish_config();
    assert!(std::ptr::eq(first, second));
    assert!(std::ptr::eq(first, &fan.fan));
    assert_eq!(first.state_topic, "gv2mqtt/fan/AABBCCDD/state");
    assert_eq!(first.preset_modes, vec!["Normal", "Auto", "Sleep"]);
}

#[test]
fn notify_state_reports_on_and_off() {
    let mut d = device(vec![]);
    d.target_speed = Some(30);
    let fan = entity(&d);
    let report = fan.notify_state(&mut d);
    assert_eq!(
        messages(&report.publications),
        vec![
            message("gv2mqtt/fan/AABBCCDD/state", "ON"),
            message("gv2mqtt/fan/AABBCCDD/notify-speed", "30"),
        ]
    );
    d.device_state = Some(DeviceState { on: false });
    let report = fan.notify_state(&mut d);
    assert_eq!(report.publications[0].payload, "OFF");
}

#[test]
fn notify_state_without_state_publishes_off() {
    let mut d = device(vec![work_modes()]);
    d.device_state = None;
    let fan = entity(&d);
    let report = fan.notify_state(&mut d);
    assert_eq!(report.publications[0].topic, "gv2mqtt/fan/AABBCCDD/state");
    assert_eq!(report.publications[0].payload, "OFF");
}

#[test]
fn notify_state_guesses_range_minimum_once() {
    let mut d = device(vec![fan_range(3, 8, Some("unit.percent"))]);
    let fan = entity(&d);

    let first = fan.notify_state(&mut d);
    assert_eq!(first.latched, Some(3));
    assert_eq!(d.target_speed, Some(3));
    assert_eq!(first.publications[1].topic, "gv2mqtt/fan/AABBCCDD/notify-speed");
    assert_eq!(first.publications[1].payload, "3");

    let second = fan.notify_state(&mut d);
    assert_eq!(second.latched, None);
    assert_eq!(d.target_speed, Some(3));
    assert_eq!(messages(&second.publications), messages(&first.publications));
}

#[test]
fn notify_state_guesses_zero_without_range() {
    let mut d = device(vec![work_modes()]);
    let fan = entity(&d);
    let report = fan.notify_state(&mut d);
    assert_eq!(report.latched, Some(0));
    assert_eq!(report.publications[1].payload, "0");
    assert_eq!(d.target_speed, Some(0));
    assert_eq!(fan.notify_state(&mut d).latched, None);
}

#[test]
fn notify_state_keeps_known_speed() {
    let mut d = device(vec![fan_range(3, 8, Some("unit.percent"))]);
    d.target_speed = Some(100);
    let fan = entity(&d);
    let report = fan.notify_state(&mut d);
    assert_eq!(report.latched, None);
    assert_eq!(report.publications[1].payload, "100");
    assert_eq!(d.target_speed, Some(100));
}

#[test]
fn notify_state_touches_nothing_but_target_speed() {
    let mut d = device(vec![work_modes()]);
    d.fan_work_mode = Some(2);
    d.device_state = None;
    let fan = entity(&d);
    fan.notify_state(&mut d);
    assert_eq!(d.sku, "H7102");
    assert_eq!(d.id, "AA:BB:CC:DD");
    assert_eq!(d.fan_work_mode, Some(2));
    assert!(d.device_state.is_none());
    assert!(d.iot_api_supported && d.pollable_via_iot);
    assert_eq!(d.http_device_info.as_ref().unwrap().capabilities.len(), 1);
    assert!(d.capability_states.is_empty());
}

#[test]
fn notify_state_publishes_observed_mode() {
    let mut d = device(vec![work_modes()]);
    d.fan_work_mode = Some(5);
    d.target_speed = Some(40);
    let fan = entity(&d);
    let report = fan.notify_state(&mut d);
    assert_eq!(
        messages(&report.publications),
        vec![
            message("gv2mqtt/fan/AABBCCDD/state", "ON"),
            message("gv2mqtt/fan/AABBCCDD/notify-speed", "40"),
            message("gv2mqtt/fan/AABBCCDD/notify-mode", "Sleep"),
        ]
    );
}

#[test]
fn notify_state_reads_mode_from_raw_state() {
    let mut d = device(vec![work_modes()]);
    d.capability_states.push(DeviceCapabilityState {
        instance: "workMode".to_string(),
        state: serde_json::from_str::<Value>(r#"{"value":{"workMode":2,"modeValue":0}}"#).unwrap(),
    });
    let fan = entity(&d);
    let report = fan.notify_state(&mut d);
    assert_eq!(report.publications.len(), 3);
    assert_eq!(report.publications[2].topic, "gv2mqtt/fan/AABBCCDD/notify-mode");
    assert_eq!(report.publications[2].payload, "Auto");
}

#[test]
fn notify_state_never_guesses_a_mode() {
    // Nothing reported.
    let mut d = device(vec![work_modes()]);
    let fan = entity(&d);
    assert_eq!(fan.notify_state(&mut d).publications.len(), 2);

    // A code that names no mode.
    let mut d = device(vec![work_modes()]);
    d.fan_work_mode = Some(9);
    assert_eq!(fan.notify_state(&mut d).publications.len(), 2);

    // A raw state that cannot be read.
    let mut d = device(vec![work_modes()]);
    d.capability_states.push(DeviceCapabilityState {
        instance: "workMode".to_string(),
        state: serde_json::from_str::<Value>(r#"{"value":{"workMode":"Auto"}}"#).unwrap(),
    });
    assert_eq!(fan.notify_state(&mut d).publications.len(), 2);

    // A device without work modes, whatever it reports.
    let mut d = device(vec![]);
    d.fan_work_mode = Some(2);
    assert_eq!(fan.notify_state(&mut d).publications.len(), 2);
}

#[test]
fn set_target_speed_writes_one_field() {
    let mut d = device(vec![work_modes()]);
    d.set_target_speed(77);
    assert_eq!(d.target_speed, Some(77));
    assert_eq!(d.fan_work_mode, None);
    assert!(d.device_state.unwrap().on);
}
