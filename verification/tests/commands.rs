//! The capability gate, the range checks with their exact boundaries, the
//! exact request bytes, the local mutation on confirmed success, and the
//! reload that replaces a device wholesale.
use dirigera::command::Command;
use dirigera::device::Attributes;
use dirigera::device::Capabilities;
use dirigera::device::Capability;
use dirigera::device::Device;
use dirigera::device::DeviceData;
use dirigera::device::DeviceType;
use dirigera::device::Startup;
use dirigera::error::HubError;
use dirigera::error::ValidationError;
use dirigera::hub::CallPhase;
use dirigera::hub::MutationCall;
use dirigera::hub::TransportOutcome;
use dirigera::instant::Instant;
use dirigera::request::HttpMethod;
use dirigera::request::Response;
use dirigera::scene::Scene;
use dirigera::scene::SceneData;
use dirigera::scene::Info;
use dirigera::Hub;

fn attrs() -> Attributes {
    Attributes {
        custom_name: "Lamp".to_string(),
        firmware_version: "1.0".to_string(),
        hardware_version: "2".to_string(),
        manufacturer: "IKEA of Sweden".to_string(),
        model: "X".to_string(),
        ota_policy: "autoUpdate".to_string(),
        ota_progress: 0,
        ota_schedule_end: String::new(),
        ota_schedule_start: String::new(),
        ota_state: "readyToCheck".to_string(),
        ota_status: "upToDate".to_string(),
        product_code: None,
        serial_number: "SN1".to_string(),
        is_on: true,
        startup_on_off: None,
        light_level: Some(50),
        permitting_join: false,
        color_mode: None,
        color_temperature: Some(2700),
        color_temperature_min: Some(4000),
        color_temperature_max: Some(2202),
        startup_temperature: None,
        color_hue_millis: None,
        color_saturation_millis: None,
        circadian_rhythm_mode: None,
        battery_percentage: None,
        blinds_current_level: None,
        blinds_target_level: None,
        blinds_state: None,
        current_temperature: None,
        current_r_h: None,
        current_p_m25: None,
        max_measured_p_m25: None,
        min_measured_p_m25: None,
        voc_index: None,
        is_open: None,
    }
}

fn light(can_receive: Vec<Capability>) -> Device {
    Device::Light(DeviceData {
        id: "abc123".to_string(),
        device_type: DeviceType::Light,
        created_at: Instant { epoch_millis: 0 },
        is_reachable: true,
        is_hidden: None,
        last_seen: Instant { epoch_millis: 0 },
        room: None,
        attributes: attrs(),
        remote_links: Vec::new(),
        capabilities: Capabilities { can_send: Vec::new(), can_receive },
    })
}

fn hub() -> Hub {
    Hub::new("SECRET-REDACTED".to_string())
}

fn ok_response() -> Response {
    Response { status: 200, body: String::new() }
}

#[test]
fn gate_rejects_without_capability_and_builds_no_request() {
    let device = light(vec![Capability::LightLevel]);
    let r = hub().toggle_on_off_request(&device);
    assert_eq!(
        r,
        Err(HubError::Validation(ValidationError::MissingCapability))
    );
    let call = MutationCall::start(&hub(), &device, Command::ToggleOnOff);
    assert_eq!(call.phase, CallPhase::Rejected);
    assert!(call.plan.is_none());
    assert_eq!(
        call.error,
        Some(HubError::Validation(ValidationError::MissingCapability))
    );
}

#[test]
fn gate_rejects_each_command_kind() {
    let device = light(vec![]);
    let h = hub();
    let expected = Err(HubError::Validation(ValidationError::MissingCapability));
    assert_eq!(h.toggle_on_off_request(&device), expected);
    assert_eq!(h.set_light_level_request(&device, 10), expected);
    assert_eq!(h.set_temperature_request(&device, 3000), expected);
    assert_eq!(h.set_hue_saturation_request(&device, 1000, 500), expected);
    assert_eq!(h.set_target_level_request(&device, 10), expected);
    assert_eq!(h.rename_request(&device, "New"), expected);
    // Startup behaviour requires no capability at all.
    assert!(h.set_startup_behaviour_request(&device, Startup::StartOn).is_ok());
}

#[test]
fn light_level_boundaries() {
    let device = light(vec![Capability::LightLevel]);
    let h = hub();
    assert!(h.set_light_level_request(&device, 0).is_ok());
    assert!(h.set_light_level_request(&device, 100).is_ok());
    assert_eq!(
        h.set_light_level_request(&device, 101),
        Err(HubError::Validation(ValidationError::LightLevelOutOfRange))
    );
    assert_eq!(
        h.set_light_level_request(&device, -1),
        Err(HubError::Validation(ValidationError::LightLevelOutOfRange))
    );
}

#[test]
fn hue_and_saturation_boundaries() {
    let device = light(vec![Capability::ColorHue, Capability::ColorSaturation]);
    let h = hub();
    assert!(h.set_hue_saturation_request(&device, 0, 0).is_ok());
    assert!(h.set_hue_saturation_request(&device, 359999, 1000).is_ok());
    assert_eq!(
        h.set_hue_saturation_request(&device, 360000, 500),
        Err(HubError::Validation(ValidationError::HueOutOfRange))
    );
    assert_eq!(
        h.set_hue_saturation_request(&device, -1, 500),
        Err(HubError::Validation(ValidationError::HueOutOfRange))
    );
    assert_eq!(
        h.set_hue_saturation_request(&device, 1000, 1001),
        Err(HubError::Validation(ValidationError::SaturationOutOfRange))
    );
    assert_eq!(
        h.set_hue_saturation_request(&device, 1000, -1),
        Err(HubError::Validation(ValidationError::SaturationOutOfRange))
    );
}

#[test]
fn temperature_bounds_accept_either_order() {
    let device = light(vec![Capability::ColorTemperature]);
    let h = hub();
    // The sample device reports min 4000 and max 2202.
    assert!(h.set_temperature_request(&device, 2202).is_ok());
    assert!(h.set_temperature_request(&device, 3000).is_ok());
    assert!(h.set_temperature_request(&device, 4000).is_ok());
    assert_eq!(
        h.set_temperature_request(&device, 2201),
        Err(HubError::Validation(ValidationError::TemperatureOutOfRange))
    );
    assert_eq!(
        h.set_temperature_request(&device, 4001),
        Err(HubError::Validation(ValidationError::TemperatureOutOfRange))
    );
}

#[test]
fn temperature_without_declared_bounds_is_an_error() {
    let mut device = light(vec![Capability::ColorTemperature]);
    match &mut device {
        Device::Light(d) => d.attributes.color_temperature_max = None,
        _ => unreachable!(),
    }
    assert_eq!(
        hub().set_temperature_request(&device, 3000),
        Err(HubError::Validation(ValidationError::MissingTemperatureRange))
    );
}

#[test]
fn toggle_builds_the_exact_patch_body() {
    let device = light(vec![Capability::IsOn]);
    let plan = hub().toggle_on_off_request(&device).unwrap();
    assert_eq!(plan.method, HttpMethod::Patch);
    assert_eq!(plan.path, "/v1/devices/abc123");
    assert_eq!(plan.authorization, "Bearer SECRET-REDACTED");
    assert_eq!(plan.user_agent, "dirigera-rs/0.1.0");
    assert_eq!(plan.content_type.as_deref(), Some("application/json"));
    assert_eq!(plan.body, "[{\"attributes\":{\"isOn\":false}}]");
}

#[test]
fn toggle_applies_only_the_power_flip() {
    let mut device = light(vec![Capability::IsOn]);
    let before = device.clone();
    let r = Hub::toggle_on_off_parse_response(&mut device, &ok_response());
    assert!(r.is_ok());
    let mut expected = before;
    match &mut expected {
        Device::Light(d) => d.attributes.is_on = false,
        _ => unreachable!(),
    }
    assert_eq!(device, expected);
}

#[test]
fn failed_mutations_leave_the_device_untouched() {
    let mut device = light(vec![Capability::IsOn]);
    let before = device.clone();
    let bad = Response { status: 503, body: String::new() };
    assert_eq!(
        Hub::toggle_on_off_parse_response(&mut device, &bad),
        Err(HubError::Protocol(503))
    );
    assert_eq!(device, before);
    let call = MutationCall::start(&hub(), &device, Command::ToggleOnOff);
    assert_eq!(call.phase, CallPhase::Sending);
    let r = call.finish(TransportOutcome::Failed("connection reset".to_string()), &mut device);
    assert_eq!(r, Err(HubError::Transport("connection reset".to_string())));
    assert_eq!(device, before);
}

#[test]
fn the_state_machine_applies_on_delivered_success() {
    let mut device = light(vec![Capability::LightLevel]);
    let call = MutationCall::start(&hub(), &device, Command::SetLightLevel(75));
    assert_eq!(call.phase, CallPhase::Sending);
    let plan = call.plan.as_ref().unwrap();
    assert_eq!(plan.body, "[{\"attributes\":{\"lightLevel\":75}}]");
    let r = call.finish(TransportOutcome::Delivered(202), &mut device);
    assert!(r.is_ok());
    assert_eq!(device.inner().attributes.light_level, Some(75));
}

#[test]
fn both_modes_build_identical_requests() {
    let h = hub();
    let device = light(vec![Capability::IsOn]);
    let direct = h.toggle_on_off_request(&device).unwrap();
    let via_machine = MutationCall::start(&h, &device, Command::ToggleOnOff).plan.unwrap();
    assert_eq!(direct, via_machine);
}

#[test]
fn hue_saturation_body_uses_three_fraction_digits() {
    let device = light(vec![Capability::ColorHue, Capability::ColorSaturation]);
    let plan = hub().set_hue_saturation_request(&device, 240000, 500).unwrap();
    assert_eq!(
        plan.body,
        "[{\"attributes\":{\"colorHue\":240.000,\"colorSaturation\":0.500}}]"
    );
}

#[test]
fn saturation_is_applied_from_its_own_parameter() {
    let mut device = light(vec![Capability::ColorHue, Capability::ColorSaturation]);
    let r = Hub::set_hue_saturation_parse_response(&mut device, 240000, 500, &ok_response());
    assert!(r.is_ok());
    assert_eq!(device.inner().attributes.color_hue_millis, Some(240000));
    assert_eq!(device.inner().attributes.color_saturation_millis, Some(500));
}

#[test]
fn rename_escapes_the_new_name() {
    let device = light(vec![Capability::CustomName]);
    let plan = hub().rename_request(&device, "say \"hi\"\n").unwrap();
    assert_eq!(
        plan.body,
        "[{\"attributes\":{\"customName\":\"say \\\"hi\\\"\\n\"}}]"
    );
    let mut device = light(vec![Capability::CustomName]);
    let r = Hub::rename_parse_response(&mut device, "Bedside", &ok_response());
    assert!(r.is_ok());
    assert_eq!(device.inner().attributes.custom_name, "Bedside");
}

#[test]
fn startup_behaviour_body_carries_the_wire_name() {
    let device = light(vec![]);
    let plan = hub().set_startup_behaviour_request(&device, Startup::StartPrevious).unwrap();
    assert_eq!(
        plan.body,
        "[{\"attributes\":{\"startupOnOff\":\"startPrevious\"}}]"
    );
    let mut device = light(vec![]);
    let r = Hub::set_startup_behaviour_parse_response(
        &mut device,
        Startup::StartToggle,
        &ok_response(),
    );
    assert!(r.is_ok());
    assert_eq!(device.inner().attributes.startup_on_off, Some(Startup::StartToggle));
}

#[test]
fn read_requests_have_no_body() {
    let h = hub();
    let plan = h.devices_request();
    assert_eq!(plan.method, HttpMethod::Get);
    assert_eq!(plan.path, "/v1/devices");
    assert_eq!(plan.content_type, None);
    assert_eq!(plan.body, "");
    let plan = h.device_request("abc123");
    assert_eq!(plan.path, "/v1/devices/abc123");
    let plan = h.scenes_request();
    assert_eq!(plan.path, "/v1/scenes");
    let plan = h.scene_request("s1");
    assert_eq!(plan.path, "/v1/scenes/s1");
}

#[test]
fn scene_invocations_are_posts_with_empty_bodies() {
    let scene = Scene::UserScene(SceneData {
        id: "s1".to_string(),
        info: Info { name: "Evening".to_string(), icon: "moon".to_string() },
        scene_type: None,
        actions: Vec::new(),
        commands: Vec::new(),
        triggers: Vec::new(),
        undo_allowed_duration: 30,
        created_at: Instant { epoch_millis: 0 },
        last_completed: None,
        last_triggered: None,
        last_undo: None,
    });
    let h = hub();
    let plan = h.trigger_scene_request(&scene);
    assert_eq!(plan.method, HttpMethod::Post);
    assert_eq!(plan.path, "/v1/scenes/s1/trigger");
    assert_eq!(plan.content_type, None);
    assert_eq!(plan.body, "");
    let plan = h.undo_scene_request(&scene);
    assert_eq!(plan.path, "/v1/scenes/s1/undo");
    assert!(Hub::trigger_scene_parse_response(&ok_response()).is_ok());
    assert_eq!(
        Hub::undo_scene_parse_response(&Response { status: 404, body: String::new() }),
        Err(HubError::Protocol(404))
    );
}

#[test]
fn reload_replaces_every_field() {
    let mut device = light(vec![Capability::IsOn]);
    let fresh_body = "{\"id\":\"abc123\",\"type\":\"light\",\"deviceType\":\"lightController\",\"createdAt\":\"2024-06-01T00:00:00Z\",\"isReachable\":false,\"isHidden\":true,\"lastSeen\":\"2024-06-02T00:00:00Z\",\"attributes\":{\"customName\":\"Renamed elsewhere\",\"firmwareVersion\":\"9.9\",\"hardwareVersion\":\"3\",\"manufacturer\":\"IKEA of Sweden\",\"model\":\"Y\",\"otaPolicy\":\"manual\",\"otaProgress\":50,\"otaScheduleEnd\":\"\",\"otaScheduleStart\":\"\",\"otaState\":\"updating\",\"otaStatus\":\"updateAvailable\",\"serialNumber\":\"SN2\",\"isOn\":false,\"permittingJoin\":true,\"lightLevel\":1},\"remoteLinks\":[],\"capabilities\":{\"canSend\":[\"isOn\"],\"canReceive\":[]}}";
    let response = Response { status: 200, body: fresh_body.to_string() };
    let r = Hub::device_reload_parse_response(&mut device, &response);
    assert!(r.is_ok());
    let d = device.inner();
    // Fields unrelated to any command changed too: the record is replaced
    // wholesale.
    assert_eq!(d.device_type, DeviceType::LightController);
    assert_eq!(d.attributes.custom_name, "Renamed elsewhere");
    assert_eq!(d.attributes.firmware_version, "9.9");
    assert_eq!(d.attributes.ota_progress, 50);
    assert!(!d.attributes.is_on);
    assert_eq!(d.attributes.light_level, Some(1));
    assert_eq!(d.attributes.color_temperature, None);
    assert!(!d.is_reachable);
    assert_eq!(d.is_hidden, Some(true));
    assert_eq!(d.room, None);
    assert_eq!(d.capabilities.can_send, vec![Capability::IsOn]);
    assert!(d.capabilities.can_receive.is_empty());
}

#[test]
fn reload_failure_keeps_the_local_copy() {
    let mut device = light(vec![Capability::IsOn]);
    let before = device.clone();
    let response = Response { status: 200, body: "not json".to_string() };
    assert!(Hub::device_reload_parse_response(&mut device, &response).is_err());
    assert_eq!(device, before);
}

#[test]
fn accessors_respect_the_device_kind() {
    let device = light(vec![]);
    assert_eq!(device.is_on(), Ok(true));
    assert_eq!(device.light_level(), Ok(Some(50)));
    assert_eq!(device.color_temperature(), Ok(Some(2700)));
    assert_eq!(
        device.blinds_target_level(),
        Err(HubError::Validation(ValidationError::NotApplicable))
    );
    assert_eq!(
        device.battery_percentage(),
        Err(HubError::Validation(ValidationError::NotApplicable))
    );
    assert_eq!(
        device.is_open(),
        Err(HubError::Validation(ValidationError::NotApplicable))
    );
}
