//! Decoding device records: exact field values, ignored unknown members,
//! the strict required timestamps, and the response-level interpreters.
use dirigera::device::Capability;
use dirigera::device::Device;
use dirigera::device::DeviceType;
use dirigera::error::DecodeError;
use dirigera::error::HubError;
use dirigera::instant::Instant;
use dirigera::request::Response;
use dirigera::Hub;

fn device_json(last_seen: &str) -> String {
    let head = "{\"id\":\"abc123\",\"type\":\"light\",\"deviceType\":\"light\",\"createdAt\":\"2023-01-01T00:00:00Z\",\"isReachable\":true,\"lastSeen\":\"";
    let tail = "\",\"attributes\":{\"customName\":\"Lamp\",\"firmwareVersion\":\"1.0\",\"hardwareVersion\":\"2\",\"manufacturer\":\"IKEA of Sweden\",\"model\":\"X\",\"otaPolicy\":\"autoUpdate\",\"otaProgress\":0,\"otaScheduleEnd\":\"\",\"otaScheduleStart\":\"\",\"otaState\":\"readyToCheck\",\"otaStatus\":\"upToDate\",\"serialNumber\":\"SN1\",\"isOn\":true,\"permittingJoin\":false,\"lightLevel\":50,\"colorTemperature\":2700,\"colorTemperatureMin\":4000,\"colorTemperatureMax\":2202,\"colorHue\":240.0,\"colorSaturation\":0.5},\"remoteLinks\":[\"r1\"],\"capabilities\":{\"canSend\":[],\"canReceive\":[\"isOn\",\"lightLevel\",\"customName\"]},\"room\":{\"id\":\"r9\",\"name\":\"Living\",\"color\":\"blue\",\"icon\":\"sofa\"},\"unknownField\":{\"nested\":[1,2,3]}}";
    format!("{}{}{}", head, last_seen, tail)
}

#[test]
fn decodes_a_full_device_record() {
    let body = device_json("2023-01-07T12:00:00Z");
    let response = Response { status: 200, body };
    let device = Hub::device_parse_response(&response).unwrap();
    match &device {
        Device::Light(d) => {
            assert_eq!(d.id, "abc123");
            assert_eq!(d.device_type, DeviceType::Light);
            assert_eq!(d.created_at, Instant { epoch_millis: 1672531200000 });
            assert_eq!(d.last_seen, Instant { epoch_millis: 1673092800000 });
            assert!(d.is_reachable);
            assert_eq!(d.is_hidden, None);
            let room = d.room.as_ref().unwrap();
            assert_eq!(room.id, "r9");
            assert_eq!(room.name, "Living");
            assert_eq!(room.color, "blue");
            assert_eq!(room.icon, "sofa");
            assert_eq!(d.attributes.custom_name, "Lamp");
            assert_eq!(d.attributes.manufacturer, "IKEA of Sweden");
            assert_eq!(d.attributes.ota_progress, 0);
            assert!(d.attributes.is_on);
            assert_eq!(d.attributes.light_level, Some(50));
            assert_eq!(d.attributes.color_temperature, Some(2700));
            assert_eq!(d.attributes.color_temperature_min, Some(4000));
            assert_eq!(d.attributes.color_temperature_max, Some(2202));
            assert_eq!(d.attributes.color_hue_millis, Some(240000));
            assert_eq!(d.attributes.color_saturation_millis, Some(500));
            assert_eq!(d.attributes.product_code, None);
            assert_eq!(d.attributes.battery_percentage, None);
            assert_eq!(d.remote_links, vec!["r1".to_string()]);
            assert_eq!(
                d.capabilities.can_receive,
                vec![Capability::IsOn, Capability::LightLevel, Capability::CustomName]
            );
            assert!(d.capabilities.can_send.is_empty());
        }
        other => panic!("expected a light, got {:?}", other),
    }
}

#[test]
fn malformed_last_seen_fails_the_whole_record() {
    let body = device_json("not-a-date");
    let response = Response { status: 200, body };
    let r = Hub::device_parse_response(&response);
    assert_eq!(r, Err(HubError::Decode(DecodeError::Timestamp)));
}

#[test]
fn unknown_members_are_ignored() {
    // A stray `lastTriggered` member, even malformed, is unknown on a
    // device record and must not affect the decode.
    let body = device_json("2023-01-07T12:00:00Z")
        .replace("\"unknownField\"", "\"lastTriggered\":\"not-a-date\",\"unknownField\"");
    let response = Response { status: 200, body };
    assert!(Hub::device_parse_response(&response).is_ok());
}

#[test]
fn missing_required_member_fails() {
    let body = device_json("2023-01-07T12:00:00Z").replace("\"isReachable\":true,", "");
    let response = Response { status: 200, body };
    assert_eq!(
        Hub::device_parse_response(&response),
        Err(HubError::Decode(DecodeError::Shape))
    );
}

#[test]
fn unknown_capability_name_fails() {
    let body = device_json("2023-01-07T12:00:00Z").replace("\"isOn\",", "\"warpDrive\",");
    let response = Response { status: 200, body };
    assert_eq!(
        Hub::device_parse_response(&response),
        Err(HubError::Decode(DecodeError::Shape))
    );
}

#[test]
fn unknown_kind_tag_fails() {
    let body = device_json("2023-01-07T12:00:00Z").replace("\"type\":\"light\"", "\"type\":\"toaster\"");
    let response = Response { status: 200, body };
    assert_eq!(
        Hub::device_parse_response(&response),
        Err(HubError::Decode(DecodeError::Shape))
    );
}

#[test]
fn decodes_a_device_listing() {
    let one = device_json("2023-01-07T12:00:00Z");
    let body = format!("[{},{}]", one, one.replace("abc123", "def456"));
    let response = Response { status: 200, body };
    let devices = Hub::devices_parse_response(&response).unwrap();
    assert_eq!(devices.len(), 2);
    assert_eq!(devices[0].inner().id, "abc123");
    assert_eq!(devices[1].inner().id, "def456");
}

#[test]
fn one_bad_record_fails_the_listing() {
    let good = device_json("2023-01-07T12:00:00Z");
    let bad = device_json("not-a-date");
    let body = format!("[{},{}]", good, bad);
    let response = Response { status: 200, body };
    assert_eq!(
        Hub::devices_parse_response(&response),
        Err(HubError::Decode(DecodeError::Timestamp))
    );
}

#[test]
fn an_empty_listing_decodes_to_no_devices() {
    let response = Response { status: 200, body: "[]".to_string() };
    assert_eq!(Hub::devices_parse_response(&response), Ok(vec![]));
}

#[test]
fn negative_startup_temperature_decodes() {
    let body = device_json("2023-01-07T12:00:00Z")
        .replace("\"colorHue\":240.0", "\"startupTemperature\":-18,\"colorHue\":240.0");
    let response = Response { status: 200, body };
    let device = Hub::device_parse_response(&response).unwrap();
    assert_eq!(device.inner().attributes.startup_temperature, Some(-18));
}

#[test]
fn non_success_status_is_a_protocol_error() {
    let response = Response { status: 500, body: device_json("2023-01-07T12:00:00Z") };
    assert_eq!(
        Hub::device_parse_response(&response),
        Err(HubError::Protocol(500))
    );
}

#[test]
fn body_that_is_not_json_is_a_syntax_error() {
    let response = Response { status: 200, body: "<html>".to_string() };
    assert_eq!(
        Hub::device_parse_response(&response),
        Err(HubError::Decode(DecodeError::Syntax))
    );
}
