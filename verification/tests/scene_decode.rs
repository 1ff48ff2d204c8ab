//! Decoding scene records: triggers of every kind, the strict `createdAt`,
//! and the lenient trailing timestamps that degrade to "absent".
use dirigera::error::DecodeError;
use dirigera::error::HubError;
use dirigera::instant::Instant;
use dirigera::request::Response;
use dirigera::scene::Action;
use dirigera::scene::EndTrigger;
use dirigera::scene::Follow;
use dirigera::scene::Scene;
use dirigera::scene::Trigger;
use dirigera::Hub;

fn scene_json(created_at: &str, last_triggered: &str) -> String {
    let part1 = "{\"id\":\"s1\",\"type\":\"userScene\",\"info\":{\"name\":\"Evening\",\"icon\":\"moon\"},\"actions\":[{\"type\":\"device\",\"id\":\"a1\",\"deviceId\":\"abc123\",\"attributes\":{\"isOn\":true,\"lightLevel\":30}}],\"commands\":[],\"triggers\":[{\"type\":\"app\",\"id\":\"t1\",\"disabled\":false,\"triggeredAt\":\"2023-01-01T00:00:00Z\"},{\"type\":\"time\",\"id\":\"t2\",\"disabled\":false,\"nextTriggerAt\":\"2023-01-02T07:30:00Z\",\"trigger\":{\"days\":[\"Mon\"],\"time\":\"07:30\"},\"endTriggerEvent\":{\"type\":\"duration\",\"trigger\":{\"duration\":3600}}},{\"type\":\"sunriseSunset\",\"id\":\"t3\",\"disabled\":true,\"trigger\":{\"type\":\"sunset\",\"days\":null,\"offset\":-30},\"endTriggerEvent\":{\"type\":\"time\",\"trigger\":{\"days\":null,\"time\":\"23:00\"}}}],\"undoAllowedDuration\":30,\"createdAt\":\"";
    let part2 = "\",\"lastTriggered\":\"";
    let part3 = "\",\"lastUndo\":\"2023-01-03T00:00:00Z\"}";
    format!("{}{}{}{}{}", part1, created_at, part2, last_triggered, part3)
}

#[test]
fn decodes_a_full_scene_record() {
    let body = scene_json("2022-12-31T00:00:00Z", "2023-01-01T00:00:00Z");
    let response = Response { status: 200, body };
    let scene = Hub::scene_parse_response(&response).unwrap();
    let Scene::UserScene(sd) = &scene;
    assert_eq!(sd.id, "s1");
    assert_eq!(sd.info.name, "Evening");
    assert_eq!(sd.info.icon, "moon");
    assert_eq!(sd.scene_type, None);
    assert_eq!(sd.undo_allowed_duration, 30);
    assert_eq!(sd.created_at, Instant { epoch_millis: 1672444800000 });
    assert_eq!(sd.last_triggered, Some(Instant { epoch_millis: 1672531200000 }));
    assert_eq!(sd.last_completed, None);
    assert_eq!(sd.last_undo, Some(Instant { epoch_millis: 1672704000000 }));
    assert_eq!(sd.actions.len(), 1);
    let Action::Device(ad) = &sd.actions[0];
    assert_eq!(ad.id, "a1");
    assert_eq!(ad.device_id, "abc123");
    assert!(ad.attributes.is_on);
    assert_eq!(ad.attributes.light_level, Some(30));
    assert_eq!(ad.attributes.color_temperature, None);
    assert_eq!(sd.triggers.len(), 3);
    match &sd.triggers[0] {
        Trigger::App(t) => {
            assert_eq!(t.id, "t1");
            assert!(!t.disabled);
            assert_eq!(t.triggered_at, Some(Instant { epoch_millis: 1672531200000 }));
        }
        other => panic!("expected an app trigger, got {:?}", other),
    }
    match &sd.triggers[1] {
        Trigger::Time(t) => {
            assert_eq!(t.id, "t2");
            assert_eq!(t.next_trigger_at, Instant { epoch_millis: 1672644600000 });
            assert_eq!(t.trigger.days, Some(vec!["Mon".to_string()]));
            assert_eq!(t.trigger.time, "07:30");
            match &t.end_trigger_event {
                EndTrigger::Duration(d) => assert_eq!(d.duration, 3600),
                other => panic!("expected a duration end trigger, got {:?}", other),
            }
        }
        other => panic!("expected a time trigger, got {:?}", other),
    }
    match &sd.triggers[2] {
        Trigger::SunriseSunset(t) => {
            assert_eq!(t.id, "t3");
            assert!(t.disabled);
            // No nextTriggerAt member: the strict-when-present field falls
            // back to the epoch.
            assert_eq!(t.next_trigger_at, Instant { epoch_millis: 0 });
            match &t.trigger {
                Follow::Sunset { days, offset } => {
                    assert_eq!(days, &None);
                    assert_eq!(*offset, -30);
                }
                other => panic!("expected a sunset follow, got {:?}", other),
            }
            match &t.end_trigger_event {
                EndTrigger::Time(tm) => {
                    assert_eq!(tm.days, None);
                    assert_eq!(tm.time, "23:00");
                }
                other => panic!("expected a time end trigger, got {:?}", other),
            }
        }
        other => panic!("expected a sunrise/sunset trigger, got {:?}", other),
    }
}

#[test]
fn malformed_last_triggered_degrades_to_absent() {
    let body = scene_json("2022-12-31T00:00:00Z", "not-a-date");
    let response = Response { status: 200, body };
    let scene = Hub::scene_parse_response(&response).unwrap();
    let Scene::UserScene(sd) = &scene;
    assert_eq!(sd.last_triggered, None);
    // The other lenient field still reads normally.
    assert_eq!(sd.last_undo, Some(Instant { epoch_millis: 1672704000000 }));
}

#[test]
fn wrongly_typed_triggered_at_degrades_to_absent() {
    let body = scene_json("2022-12-31T00:00:00Z", "2023-01-01T00:00:00Z").replace(
        "\"triggeredAt\":\"2023-01-01T00:00:00Z\"",
        "\"triggeredAt\":12345",
    );
    let response = Response { status: 200, body };
    let scene = Hub::scene_parse_response(&response).unwrap();
    let Scene::UserScene(sd) = &scene;
    match &sd.triggers[0] {
        Trigger::App(t) => assert_eq!(t.triggered_at, None),
        other => panic!("expected an app trigger, got {:?}", other),
    }
}

#[test]
fn scene_type_is_read_when_present() {
    let body = scene_json("2022-12-31T00:00:00Z", "2023-01-01T00:00:00Z")
        .replace("\"id\":\"s1\",", "\"id\":\"s1\",\"sceneType\":\"custom\",");
    let response = Response { status: 200, body };
    let scene = Hub::scene_parse_response(&response).unwrap();
    assert_eq!(scene.inner().scene_type, Some("custom".to_string()));
}

#[test]
fn malformed_created_at_fails_the_whole_record() {
    let body = scene_json("not-a-date", "2023-01-01T00:00:00Z");
    let response = Response { status: 200, body };
    assert_eq!(
        Hub::scene_parse_response(&response),
        Err(HubError::Decode(DecodeError::Timestamp))
    );
}

#[test]
fn malformed_next_trigger_at_fails_the_record_when_present() {
    let body = scene_json("2022-12-31T00:00:00Z", "2023-01-01T00:00:00Z").replace(
        "\"nextTriggerAt\":\"2023-01-02T07:30:00Z\"",
        "\"nextTriggerAt\":\"soon\"",
    );
    let response = Response { status: 200, body };
    assert_eq!(
        Hub::scene_parse_response(&response),
        Err(HubError::Decode(DecodeError::Timestamp))
    );
}

#[test]
fn unknown_scene_tag_fails() {
    let body = scene_json("2022-12-31T00:00:00Z", "2023-01-01T00:00:00Z")
        .replace("\"type\":\"userScene\"", "\"type\":\"customScene\"");
    let response = Response { status: 200, body };
    assert_eq!(
        Hub::scene_parse_response(&response),
        Err(HubError::Decode(DecodeError::Shape))
    );
}

#[test]
fn decodes_a_scene_listing() {
    let one = scene_json("2022-12-31T00:00:00Z", "2023-01-01T00:00:00Z");
    let body = format!("[{}]", one);
    let response = Response { status: 200, body };
    let scenes = Hub::scenes_parse_response(&response).unwrap();
    assert_eq!(scenes.len(), 1);
    assert_eq!(scenes[0].inner().id, "s1");
}
