//! Scenes: stored sets of device actions with optional schedule rules,
//! triggered manually or on a schedule, plus how their records decode.
use vstd::prelude::*;

use crate::decode::arr_str_ok;
use crate::decode::arr_str_rel;
use crate::decode::def_ts_ok;
use crate::decode::def_ts_rel;
use crate::decode::get_def_ts;
use crate::decode::get_opt_str;
use crate::decode::get_opt_str_array;
use crate::decode::get_opt_ts;
use crate::decode::get_req_bool;
use crate::decode::get_req_int;
use crate::decode::get_req_str;
use crate::decode::get_req_ts;
use crate::decode::get_opt_int;
use crate::decode::get_str_array;
use crate::decode::jget;
use crate::decode::num_opt_ok;
use crate::decode::num_opt_rel;
use crate::decode::num_req_ok;
use crate::decode::num_req_rel;
use crate::decode::obj_get;
use crate::decode::opt_arr_str_ok;
use crate::decode::opt_arr_str_rel;
use crate::decode::opt_int_of_u8;
use crate::decode::opt_int_of_u16;
use crate::decode::opt_str_ok;
use crate::decode::opt_str_rel;
use crate::decode::opt_ts_rel;
use crate::decode::req_bool_ok;
use crate::decode::req_bool_rel;
use crate::decode::req_str_ok;
use crate::decode::req_str_rel;
use crate::decode::req_ts_ok;
use crate::decode::req_ts_rel;
use crate::decode::to_opt_u16;
use crate::decode::to_opt_u8;
use crate::error::DecodeError;
use crate::instant::Instant;
use crate::json::JVal;
use crate::json::JsonMember;
use crate::json::JsonValue;
use crate::json::lemma_list_view_index;
use crate::json::lemma_list_view_len;
use crate::json::list_view;
use crate::json::members_view;
use crate::text::str_eq;

verus! {

/// A scene, represented by its `type` tag; the hub currently emits one
/// kind.
#[derive(Debug, Clone, PartialEq)]
pub enum Scene {
    UserScene(SceneData),
}

/// Specific data for a scene: what it does and when it fires.
#[derive(Debug, Clone, PartialEq)]
pub struct SceneData {
    pub id: String,
    pub info: Info,
    pub scene_type: Option<String>,
    pub actions: Vec<Action>,
    pub commands: Vec<String>,
    pub triggers: Vec<Trigger>,
    pub undo_allowed_duration: u8,
    pub created_at: Instant,
    pub last_completed: Option<Instant>,
    pub last_triggered: Option<Instant>,
    pub last_undo: Option<Instant>,
}

/// A scene's name and icon.
#[derive(Debug, Clone, PartialEq)]
pub struct Info {
    pub name: String,
    pub icon: String,
}

/// What fires a scene: the app, sunrise or sunset, or a fixed time.
#[derive(Debug, Clone, PartialEq)]
pub enum Trigger {
    App(AppTrigger),
    SunriseSunset(SunriseSunsetTrigger),
    Time(TimeTrigger),
}

/// A trigger fired from the app, with its state and when it last fired.
#[derive(Debug, Clone, PartialEq)]
pub struct AppTrigger {
    pub id: String,
    pub disabled: bool,
    pub triggered_at: Option<Instant>,
}

/// A trigger fired at a fixed time of day.
#[derive(Debug, Clone, PartialEq)]
pub struct TimeTrigger {
    pub id: String,
    pub disabled: bool,
    pub next_trigger_at: Instant,
    pub trigger: Time,
    pub end_trigger_event: EndTrigger,
}

/// A trigger following sunrise or sunset.
#[derive(Debug, Clone, PartialEq)]
pub struct SunriseSunsetTrigger {
    pub id: String,
    pub disabled: bool,
    pub next_trigger_at: Instant,
    pub trigger: Follow,
    pub end_trigger_event: EndTrigger,
}

/// What ends a triggered scene: a duration, a sunrise/sunset follow, or a
/// fixed time of day.
#[derive(Debug, Clone, PartialEq)]
pub enum EndTrigger {
    Duration(Duration),
    SunriseSunset(Follow),
    Time(Time),
}

/// A plain number of seconds from the trigger's start.
#[derive(Debug, Clone, Copy, PartialEq, Eq, Structural)]
pub struct Duration {
    pub duration: u32,
}

/// A schedule anchored to sunrise or sunset, with a signed minute offset
/// and an optional day-of-week filter.
#[derive(Debug, Clone, PartialEq)]
pub enum Follow {
    Sunrise { days: Option<Vec<String>>, offset: i32 },
    Sunset { days: Option<Vec<String>>, offset: i32 },
}

/// A fixed time of day, with an optional day-of-week filter.
#[derive(Debug, Clone, PartialEq)]
pub struct Time {
    pub days: Option<Vec<String>>,
    pub time: String,
}

/// One step a scene performs, aimed at a device.
#[derive(Debug, Clone, PartialEq)]
pub enum Action {
    Device(ActionData),
}

/// The target device and the partial attribute set an action applies.
#[derive(Debug, Clone, PartialEq)]
pub struct ActionData {
    pub id: String,
    pub device_id: String,
    pub attributes: SceneAttributes,
}

/// The attributes a scene action may set.
#[derive(Debug, Clone, PartialEq)]
pub struct SceneAttributes {
    pub is_on: bool,
    pub light_level: Option<u8>,
    pub color_temperature: Option<u16>,
}

impl Scene {
    /// The shared record, regardless of variant.
    pub open spec fn spec_inner(self) -> SceneData {
        match self {
            Scene::UserScene(inner) => inner,
        }
    }

    /// Get a reference to the [`SceneData`] for the [`Scene`].
    pub fn inner(&self) -> (r: &SceneData)
        ensures
            *r == self.spec_inner(),
    {
        match self {
            Scene::UserScene(inner) => inner,
        }
    }
}

/// The `info` member.
pub open spec fn info_ok(m: Seq<(Seq<char>, JVal)>) -> bool {
    match jget(m, "info"@) {
        Some(JVal::Obj(im)) => req_str_ok(im, "name"@) && req_str_ok(im, "icon"@),
        _ => false,
    }
}

pub open spec fn info_rel(i: Info, m: Seq<(Seq<char>, JVal)>) -> bool {
    match jget(m, "info"@) {
        Some(JVal::Obj(im)) => req_str_rel(i.name, im, "name"@) && req_str_rel(
            i.icon,
            im,
            "icon"@,
        ),
        _ => false,
    }
}

fn get_info(members: &Vec<JsonMember>) -> (r: Result<Info, DecodeError>)
    ensures
        match r {
            Ok(i) => info_ok(members_view(members@)) && info_rel(i, members_view(members@)),
            Err(e) => !info_ok(members_view(members@)) && e == DecodeError::Shape,
        },
{
    match obj_get(members, "info") {
        Some(jv) => match jv {
            JsonValue::Obj(im) => {
                proof {
                    assert(jv@ == JVal::Obj(members_view(im@)));
                }
                let name = get_req_str(im, "name")?;
                let icon = get_req_str(im, "icon")?;
                Ok(Info { name, icon })
            },
            _ => Err(DecodeError::Shape),
        },
        None => Err(DecodeError::Shape),
    }
}

/// The attributes object inside one scene action.
pub open spec fn scene_attrs_ok(am: Seq<(Seq<char>, JVal)>) -> bool {
    &&& req_bool_ok(am, "isOn"@)
    &&& num_opt_ok(am, "lightLevel"@, 0, 255)
    &&& num_opt_ok(am, "colorTemperature"@, 0, 65535)
}

pub open spec fn scene_attrs_rel(a: SceneAttributes, am: Seq<(Seq<char>, JVal)>) -> bool {
    &&& req_bool_rel(a.is_on, am, "isOn"@)
    &&& num_opt_rel(opt_int_of_u8(a.light_level), am, "lightLevel"@)
    &&& num_opt_rel(opt_int_of_u16(a.color_temperature), am, "colorTemperature"@)
}

fn decode_scene_attributes(members: &Vec<JsonMember>) -> (r: Result<SceneAttributes, DecodeError>)
    ensures
        match r {
            Ok(a) => scene_attrs_ok(members_view(members@)) && scene_attrs_rel(
                a,
                members_view(members@),
            ),
            Err(e) => !scene_attrs_ok(members_view(members@)) && e == DecodeError::Shape,
        },
{
    let is_on = get_req_bool(members, "isOn")?;
    let light_level = to_opt_u8(get_opt_int(members, "lightLevel", 0, 255)?);
    let color_temperature = to_opt_u16(get_opt_int(members, "colorTemperature", 0, 65535)?);
    Ok(SceneAttributes { is_on, light_level, color_temperature })
}

/// One scene action: a `device`-tagged object naming its target and the
/// attributes to apply.
pub open spec fn action_ok(j: JVal) -> bool {
    match j {
        JVal::Obj(m) => {
            &&& jget(m, "type"@) == Some(JVal::Str("device"@))
            &&& req_str_ok(m, "id"@)
            &&& req_str_ok(m, "deviceId"@)
            &&& match jget(m, "attributes"@) {
                Some(JVal::Obj(am)) => scene_attrs_ok(am),
                _ => false,
            }
        },
        _ => false,
    }
}

pub open spec fn action_rel(a: Action, j: JVal) -> bool {
    match j {
        JVal::Obj(m) => match a {
            Action::Device(ad) => {
                &&& jget(m, "type"@) == Some(JVal::Str("device"@))
                &&& req_str_rel(ad.id, m, "id"@)
                &&& req_str_rel(ad.device_id, m, "deviceId"@)
                &&& match jget(m, "attributes"@) {
                    Some(JVal::Obj(am)) => scene_attrs_rel(ad.attributes, am),
                    _ => false,
                }
            },
        },
        _ => false,
    }
}

fn decode_action(v: &JsonValue) -> (r: Result<Action, DecodeError>)
    ensures
        match r {
            Ok(a) => action_ok(v@) && action_rel(a, v@),
            Err(e) => !action_ok(v@) && e == DecodeError::Shape,
        },
{
    match v {
        JsonValue::Obj(members) => {
            proof {
                assert(v@ == JVal::Obj(members_view(members@)));
            }
            let tag = get_req_str(members, "type")?;
            if !str_eq(tag.as_str(), "device") {
                return Err(DecodeError::Shape);
            }
            let id = get_req_str(members, "id")?;
            let device_id = get_req_str(members, "deviceId")?;
            let attributes = match obj_get(members, "attributes") {
                Some(jv) => match jv {
                    JsonValue::Obj(am) => {
                        proof {
                            assert(jv@ == JVal::Obj(members_view(am@)));
                        }
                        decode_scene_attributes(am)?
                    },
                    _ => {
                        return Err(DecodeError::Shape);
                    },
                },
                None => {
                    return Err(DecodeError::Shape);
                },
            };
            Ok(Action::Device(ActionData { id, device_id, attributes }))
        },
        _ => Err(DecodeError::Shape),
    }
}

/// A sunrise/sunset follow rule.
pub open spec fn follow_ok(j: JVal) -> bool {
    match j {
        JVal::Obj(m) => {
            let tag = jget(m, "type"@);
            (tag == Some(JVal::Str("sunrise"@)) || tag == Some(JVal::Str("sunset"@)))
                && opt_arr_str_ok(m, "days"@) && num_req_ok(m, "offset"@, -2147483648, 2147483647)
        },
        _ => false,
    }
}

pub open spec fn follow_rel(f: Follow, j: JVal) -> bool {
    match j {
        JVal::Obj(m) => {
            let tag = jget(m, "type"@);
            match f {
                Follow::Sunrise { days, offset } => tag == Some(JVal::Str("sunrise"@))
                    && opt_arr_str_rel(days, m, "days"@) && num_req_rel(offset as int, m, "offset"@),
                Follow::Sunset { days, offset } => tag == Some(JVal::Str("sunset"@))
                    && opt_arr_str_rel(days, m, "days"@) && num_req_rel(offset as int, m, "offset"@),
            }
        },
        _ => false,
    }
}

fn decode_follow(v: &JsonValue) -> (r: Result<Follow, DecodeError>)
    ensures
        match r {
            Ok(f) => follow_ok(v@) && follow_rel(f, v@),
            Err(e) => !follow_ok(v@) && e == DecodeError::Shape,
        },
{
    match v {
        JsonValue::Obj(members) => {
            proof {
                assert(v@ == JVal::Obj(members_view(members@)));
            }
            let tag = get_req_str(members, "type")?;
            let days = get_opt_str_array(members, "days")?;
            let offset_i = get_req_int(members, "offset", -2147483648, 2147483647)?;
            let offset = offset_i as i32;
            if str_eq(tag.as_str(), "sunrise") {
                Ok(Follow::Sunrise { days, offset })
            } else if str_eq(tag.as_str(), "sunset") {
                Ok(Follow::Sunset { days, offset })
            } else {
                Err(DecodeError::Shape)
            }
        },
        _ => Err(DecodeError::Shape),
    }
}

/// A fixed time-of-day rule.
pub open spec fn time_ok(j: JVal) -> bool {
    match j {
        JVal::Obj(m) => opt_arr_str_ok(m, "days"@) && req_str_ok(m, "time"@),
        _ => false,
    }
}

pub open spec fn time_rel(t: Time, j: JVal) -> bool {
    match j {
        JVal::Obj(m) => opt_arr_str_rel(t.days, m, "days"@) && req_str_rel(t.time, m, "time"@),
        _ => false,
    }
}

fn decode_time(v: &JsonValue) -> (r: Result<Time, DecodeError>)
    ensures
        match r {
            Ok(t) => time_ok(v@) && time_rel(t, v@),
            Err(e) => !time_ok(v@) && e == DecodeError::Shape,
        },
{
    match v {
        JsonValue::Obj(members) => {
            proof {
                assert(v@ == JVal::Obj(members_view(members@)));
            }
            let days = get_opt_str_array(members, "days")?;
            let time = get_req_str(members, "time")?;
            Ok(Time { days, time })
        },
        _ => Err(DecodeError::Shape),
    }
}

/// An end-trigger: a `type` tag and the rule itself under `trigger`.
pub open spec fn end_trigger_ok(j: JVal) -> bool {
    match j {
        JVal::Obj(m) => {
            let tag = jget(m, "type"@);
            if tag == Some(JVal::Str("duration"@)) {
                match jget(m, "trigger"@) {
                    Some(JVal::Obj(dm)) => num_req_ok(dm, "duration"@, 0, 4294967295),
                    _ => false,
                }
            } else if tag == Some(JVal::Str("sunriseSunset"@)) {
                match jget(m, "trigger"@) {
                    Some(t) => follow_ok(t),
                    None => false,
                }
            } else if tag == Some(JVal::Str("time"@)) {
                match jget(m, "trigger"@) {
                    Some(t) => time_ok(t),
                    None => false,
                }
            } else {
                false
            }
        },
        _ => false,
    }
}

pub open spec fn end_trigger_rel(et: EndTrigger, j: JVal) -> bool {
    match j {
        JVal::Obj(m) => {
            let tag = jget(m, "type"@);
            match et {
                EndTrigger::Duration(d) => tag == Some(JVal::Str("duration"@)) && match jget(
                    m,
                    "trigger"@,
                ) {
                    Some(JVal::Obj(dm)) => num_req_rel(d.duration as int, dm, "duration"@),
                    _ => false,
                },
                EndTrigger::SunriseSunset(f) => tag == Some(JVal::Str("sunriseSunset"@)) && match
                    jget(m, "trigger"@) {
                    Some(t) => follow_rel(f, t),
                    None => false,
                },
                EndTrigger::Time(t) => tag == Some(JVal::Str("time"@)) && match jget(
                    m,
                    "trigger"@,
                ) {
                    Some(tj) => time_rel(t, tj),
                    None => false,
                },
            }
        },
        _ => false,
    }
}

fn decode_end_trigger(v: &JsonValue) -> (r: Result<EndTrigger, DecodeError>)
    ensures
        match r {
            Ok(et) => end_trigger_ok(v@) && end_trigger_rel(et, v@),
            Err(e) => !end_trigger_ok(v@) && e == DecodeError::Shape,
        },
{
    match v {
        JsonValue::Obj(members) => {
            proof {
                assert(v@ == JVal::Obj(members_view(members@)));
            }
            let tag = get_req_str(members, "type")?;
            if str_eq(tag.as_str(), "duration") {
                match obj_get(members, "trigger") {
                    Some(jv) => match jv {
                        JsonValue::Obj(dm) => {
                            proof {
                                assert(jv@ == JVal::Obj(members_view(dm@)));
                            }
                            let d = get_req_int(dm, "duration", 0, 4294967295)?;
                            Ok(EndTrigger::Duration(Duration { duration: d as u32 }))
                        },
                        _ => Err(DecodeError::Shape),
                    },
                    None => Err(DecodeError::Shape),
                }
            } else if str_eq(tag.as_str(), "sunriseSunset") {
                match obj_get(members, "trigger") {
                    Some(jv) => {
                        let f = decode_follow(jv)?;
                        Ok(EndTrigger::SunriseSunset(f))
                    },
                    None => Err(DecodeError::Shape),
                }
            } else if str_eq(tag.as_str(), "time") {
                match obj_get(members, "trigger") {
                    Some(jv) => {
                        let t = decode_time(jv)?;
                        Ok(EndTrigger::Time(t))
                    },
                    None => Err(DecodeError::Shape),
                }
            } else {
                Err(DecodeError::Shape)
            }
        },
        _ => Err(DecodeError::Shape),
    }
}

/// One trigger record. App triggers read their optional `triggeredAt`
/// leniently; schedule triggers read `nextTriggerAt` strictly when present,
/// falling back to the epoch when absent.
pub open spec fn trigger_ok(j: JVal) -> bool {
    match j {
        JVal::Obj(m) => {
            let tag = jget(m, "type"@);
            if tag == Some(JVal::Str("app"@)) {
                req_str_ok(m, "id"@) && req_bool_ok(m, "disabled"@)
            } else if tag == Some(JVal::Str("sunriseSunset"@)) {
                &&& req_str_ok(m, "id"@)
                &&& req_bool_ok(m, "disabled"@)
                &&& def_ts_ok(m, "nextTriggerAt"@)
                &&& match jget(m, "trigger"@) {
                    Some(t) => follow_ok(t),
                    None => false,
                }
                &&& match jget(m, "endTriggerEvent"@) {
                    Some(t) => end_trigger_ok(t),
                    None => false,
                }
            } else if tag == Some(JVal::Str("time"@)) {
                &&& req_str_ok(m, "id"@)
                &&& req_bool_ok(m, "disabled"@)
                &&& def_ts_ok(m, "nextTriggerAt"@)
                &&& match jget(m, "trigger"@) {
                    Some(t) => time_ok(t),
                    None => false,
                }
                &&& match jget(m, "endTriggerEvent"@) {
                    Some(t) => end_trigger_ok(t),
                    None => false,
                }
            } else {
                false
            }
        },
        _ => false,
    }
}

pub open spec fn trigger_rel(t: Trigger, j: JVal) -> bool {
    match j {
        JVal::Obj(m) => {
            let tag = jget(m, "type"@);
            match t {
                Trigger::App(a) => {
                    &&& tag == Some(JVal::Str("app"@))
                    &&& req_str_rel(a.id, m, "id"@)
                    &&& req_bool_rel(a.disabled, m, "disabled"@)
                    &&& opt_ts_rel(a.triggered_at, m, "triggeredAt"@)
                },
                Trigger::SunriseSunset(s) => {
                    &&& tag == Some(JVal::Str("sunriseSunset"@))
                    &&& req_str_rel(s.id, m, "id"@)
                    &&& req_bool_rel(s.disabled, m, "disabled"@)
                    &&& def_ts_rel(s.next_trigger_at, m, "nextTriggerAt"@)
                    &&& match jget(m, "trigger"@) {
                        Some(tj) => follow_rel(s.trigger, tj),
                        None => false,
                    }
                    &&& match jget(m, "endTriggerEvent"@) {
                        Some(tj) => end_trigger_rel(s.end_trigger_event, tj),
                        None => false,
                    }
                },
                Trigger::Time(tt) => {
                    &&& tag == Some(JVal::Str("time"@))
                    &&& req_str_rel(tt.id, m, "id"@)
                    &&& req_bool_rel(tt.disabled, m, "disabled"@)
                    &&& def_ts_rel(tt.next_trigger_at, m, "nextTriggerAt"@)
                    &&& match jget(m, "trigger"@) {
                        Some(tj) => time_rel(tt.trigger, tj),
                        None => false,
                    }
                    &&& match jget(m, "endTriggerEvent"@) {
                        Some(tj) => end_trigger_rel(tt.end_trigger_event, tj),
                        None => false,
                    }
                },
            }
        },
        _ => false,
    }
}

fn decode_trigger(v: &JsonValue) -> (r: Result<Trigger, DecodeError>)
    ensures
        match r {
            Ok(t) => trigger_ok(v@) && trigger_rel(t, v@),
            Err(e) => !trigger_ok(v@) && (e == DecodeError::Shape || e == DecodeError::Timestamp),
        },
{
    match v {
        JsonValue::Obj(members) => {
            proof {
                assert(v@ == JVal::Obj(members_view(members@)));
            }
            let tag = get_req_str(members, "type")?;
            if str_eq(tag.as_str(), "app") {
                let id = get_req_str(members, "id")?;
                let disabled = get_req_bool(members, "disabled")?;
                let triggered_at = get_opt_ts(members, "triggeredAt");
                Ok(Trigger::App(AppTrigger { id, disabled, triggered_at }))
            } else if str_eq(tag.as_str(), "sunriseSunset") {
                let id = get_req_str(members, "id")?;
                let disabled = get_req_bool(members, "disabled")?;
                let next_trigger_at = get_def_ts(members, "nextTriggerAt")?;
                let trigger = match obj_get(members, "trigger") {
                    Some(jv) => decode_follow(jv)?,
                    None => {
                        return Err(DecodeError::Shape);
                    },
                };
                let end_trigger_event = match obj_get(members, "endTriggerEvent") {
                    Some(jv) => decode_end_trigger(jv)?,
                    None => {
                        return Err(DecodeError::Shape);
                    },
                };
                Ok(
                    Trigger::SunriseSunset(
                        SunriseSunsetTrigger {
                            id,
                            disabled,
                            next_trigger_at,
                            trigger,
                            end_trigger_event,
                        },
                    ),
                )
            } else if str_eq(tag.as_str(), "time") {
                let id = get_req_str(members, "id")?;
                let disabled = get_req_bool(members, "disabled")?;
                let next_trigger_at = get_def_ts(members, "nextTriggerAt")?;
                let trigger = match obj_get(members, "trigger") {
                    Some(jv) => decode_time(jv)?,
                    None => {
                        return Err(DecodeError::Shape);
                    },
                };
                let end_trigger_event = match obj_get(members, "endTriggerEvent") {
                    Some(jv) => decode_end_trigger(jv)?,
                    None => {
                        return Err(DecodeError::Shape);
                    },
                };
                Ok(
                    Trigger::Time(
                        TimeTrigger { id, disabled, next_trigger_at, trigger, end_trigger_event },
                    ),
                )
            } else {
                Err(DecodeError::Shape)
            }
        },
        _ => Err(DecodeError::Shape),
    }
}

/// The `actions` member: an array of acceptable actions.
pub open spec fn arr_actions_ok(m: Seq<(Seq<char>, JVal)>) -> bool {
    match jget(m, "actions"@) {
        Some(JVal::Arr(items)) => forall|i: int|
            #![trigger action_ok(items[i])]
            0 <= i < items.len() ==> action_ok(items[i]),
        _ => false,
    }
}

pub open spec fn arr_actions_rel(a: Seq<Action>, m: Seq<(Seq<char>, JVal)>) -> bool {
    match jget(m, "actions"@) {
        Some(JVal::Arr(items)) => a.len() == items.len() && forall|i: int|
            #![trigger a[i]]
            0 <= i < items.len() ==> action_rel(a[i], items[i]),
        _ => false,
    }
}

fn get_actions(members: &Vec<JsonMember>) -> (r: Result<Vec<Action>, DecodeError>)
    ensures
        match r {
            Ok(a) => arr_actions_ok(members_view(members@)) && arr_actions_rel(
                a@,
                members_view(members@),
            ),
            Err(e) => !arr_actions_ok(members_view(members@)) && e == DecodeError::Shape,
        },
{
    match obj_get(members, "actions") {
        Some(jv) => match jv {
            JsonValue::Arr(items) => {
                let ghost gitems = list_view(items@);
                proof {
                    assert(jv@ == JVal::Arr(gitems));
                    lemma_list_view_len(items@);
                }
                let n = items.len();
                let mut out: Vec<Action> = Vec::new();
                let mut i: usize = 0;
                while i < n
                    invariant
                        n == items@.len(),
                        gitems == list_view(items@),
                        gitems.len() == n,
                        jget(members_view(members@), "actions"@) == Some(JVal::Arr(gitems)),
                        i <= n,
                        out@.len() == i,
                        forall|q: int|
                            #![trigger out@[q]]
                            0 <= q < i ==> action_rel(out@[q], gitems[q]),
                        forall|q: int|
                            #![trigger action_ok(gitems[q])]
                            0 <= q < i ==> action_ok(gitems[q]),
                    decreases n - i,
                {
                    proof {
                        lemma_list_view_index(items@, i as int);
                    }
                    match decode_action(&items[i]) {
                        Ok(a) => {
                            out.push(a);
                        },
                        Err(e) => {
                            proof {
                                assert(!action_ok(gitems[i as int]));
                                let ghost mj = jget(members_view(members@), "actions"@);
                                assert(mj is Some);
                                assert(mj->Some_0 is Arr);
                                assert(mj->Some_0->Arr_0 == gitems);
                                if arr_actions_ok(members_view(members@)) {
                                    assert(forall|q: int|
                                        #![trigger action_ok(gitems[q])]
                                        0 <= q < gitems.len() ==> action_ok(gitems[q]));
                                    assert(action_ok(gitems[i as int]));
                                }
                            }
                            return Err(e);
                        },
                    }
                    i = i + 1;
                }
                Ok(out)
            },
            _ => Err(DecodeError::Shape),
        },
        None => Err(DecodeError::Shape),
    }
}

/// The `triggers` member: an array of acceptable triggers.
pub open spec fn arr_triggers_ok(m: Seq<(Seq<char>, JVal)>) -> bool {
    match jget(m, "triggers"@) {
        Some(JVal::Arr(items)) => forall|i: int|
            #![trigger trigger_ok(items[i])]
            0 <= i < items.len() ==> trigger_ok(items[i]),
        _ => false,
    }
}

pub open spec fn arr_triggers_rel(a: Seq<Trigger>, m: Seq<(Seq<char>, JVal)>) -> bool {
    match jget(m, "triggers"@) {
        Some(JVal::Arr(items)) => a.len() == items.len() && forall|i: int|
            #![trigger a[i]]
            0 <= i < items.len() ==> trigger_rel(a[i], items[i]),
        _ => false,
    }
}

fn get_triggers(members: &Vec<JsonMember>) -> (r: Result<Vec<Trigger>, DecodeError>)
    ensures
        match r {
            Ok(a) => arr_triggers_ok(members_view(members@)) && arr_triggers_rel(
                a@,
                members_view(members@),
            ),
            Err(e) => !arr_triggers_ok(members_view(members@)) && (e == DecodeError::Shape || e
                == DecodeError::Timestamp),
        },
{
    match obj_get(members, "triggers") {
        Some(jv) => match jv {
            JsonValue::Arr(items) => {
                let ghost gitems = list_view(items@);
                proof {
                    assert(jv@ == JVal::Arr(gitems));
                    lemma_list_view_len(items@);
                }
                let n = items.len();
                let mut out: Vec<Trigger> = Vec::new();
                let mut i: usize = 0;
                while i < n
                    invariant
                        n == items@.len(),
                        gitems == list_view(items@),
                        gitems.len() == n,
                        jget(members_view(members@), "triggers"@) == Some(JVal::Arr(gitems)),
                        i <= n,
                        out@.len() == i,
                        forall|q: int|
                            #![trigger out@[q]]
                            0 <= q < i ==> trigger_rel(out@[q], gitems[q]),
                        forall|q: int|
                            #![trigger trigger_ok(gitems[q])]
                            0 <= q < i ==> trigger_ok(gitems[q]),
                    decreases n - i,
                {
                    proof {
                        lemma_list_view_index(items@, i as int);
                    }
                    match decode_trigger(&items[i]) {
                        Ok(t) => {
                            out.push(t);
                        },
                        Err(e) => {
                            proof {
                                assert(!trigger_ok(gitems[i as int]));
                                let ghost mj = jget(members_view(members@), "triggers"@);
                                assert(mj is Some);
                                assert(mj->Some_0 is Arr);
                                assert(mj->Some_0->Arr_0 == gitems);
                                if arr_triggers_ok(members_view(members@)) {
                                    assert(forall|q: int|
                                        #![trigger trigger_ok(gitems[q])]
                                        0 <= q < gitems.len() ==> trigger_ok(gitems[q]));
                                    assert(trigger_ok(gitems[i as int]));
                                }
                            }
                            return Err(e);
                        },
                    }
                    i = i + 1;
                }
                Ok(out)
            },
            _ => Err(DecodeError::Shape),
        },
        None => Err(DecodeError::Shape),
    }
}

/// When a scene record's members are acceptable. `createdAt` is required
/// and strict; the three trailing timestamps are lenient and never fail the
/// record.
pub open spec fn scene_data_ok(m: Seq<(Seq<char>, JVal)>) -> bool {
    &&& req_str_ok(m, "id"@)
    &&& info_ok(m)
    &&& opt_str_ok(m, "sceneType"@)
    &&& arr_actions_ok(m)
    &&& arr_str_ok(m, "commands"@)
    &&& arr_triggers_ok(m)
    &&& num_req_ok(m, "undoAllowedDuration"@, 0, 255)
    &&& req_ts_ok(m, "createdAt"@)
}

pub open spec fn scene_data_rel(sd: SceneData, m: Seq<(Seq<char>, JVal)>) -> bool {
    &&& req_str_rel(sd.id, m, "id"@)
    &&& info_rel(sd.info, m)
    &&& opt_str_rel(sd.scene_type, m, "sceneType"@)
    &&& arr_actions_rel(sd.actions@, m)
    &&& arr_str_rel(sd.commands@, m, "commands"@)
    &&& arr_triggers_rel(sd.triggers@, m)
    &&& num_req_rel(sd.undo_allowed_duration as int, m, "undoAllowedDuration"@)
    &&& req_ts_rel(sd.created_at, m, "createdAt"@)
    &&& opt_ts_rel(sd.last_completed, m, "lastCompleted"@)
    &&& opt_ts_rel(sd.last_triggered, m, "lastTriggered"@)
    &&& opt_ts_rel(sd.last_undo, m, "lastUndo"@)
}

fn decode_scene_data(members: &Vec<JsonMember>) -> (r: Result<SceneData, DecodeError>)
    ensures
        match r {
            Ok(sd) => scene_data_ok(members_view(members@)) && scene_data_rel(
                sd,
                members_view(members@),
            ),
            Err(e) => !scene_data_ok(members_view(members@)) && (e == DecodeError::Shape || e
                == DecodeError::Timestamp),
        },
{
    let id = get_req_str(members, "id")?;
    let info = get_info(members)?;
    let scene_type = get_opt_str(members, "sceneType")?;
    let actions = get_actions(members)?;
    let commands = get_str_array(members, "commands")?;
    let triggers = get_triggers(members)?;
    let undo = get_req_int(members, "undoAllowedDuration", 0, 255)?;
    let created_at = get_req_ts(members, "createdAt")?;
    let last_completed = get_opt_ts(members, "lastCompleted");
    let last_triggered = get_opt_ts(members, "lastTriggered");
    let last_undo = get_opt_ts(members, "lastUndo");
    Ok(
        SceneData {
            id,
            info,
            scene_type,
            actions,
            commands,
            triggers,
            undo_allowed_duration: undo as u8,
            created_at,
            last_completed,
            last_triggered,
            last_undo,
        },
    )
}

/// When a whole scene record, tag included, is acceptable.
pub open spec fn scene_ok(j: JVal) -> bool {
    match j {
        JVal::Obj(m) => jget(m, "type"@) == Some(JVal::Str("userScene"@)) && scene_data_ok(m),
        _ => false,
    }
}

/// Which scene an acceptable record denotes.
pub open spec fn scene_rel(sc: Scene, j: JVal) -> bool {
    match j {
        JVal::Obj(m) => match sc {
            Scene::UserScene(sd) => jget(m, "type"@) == Some(JVal::Str("userScene"@))
                && scene_data_rel(sd, m),
        },
        _ => false,
    }
}

/// Decode one scene record.
pub fn decode_scene(v: &JsonValue) -> (r: Result<Scene, DecodeError>)
    ensures
        match r {
            Ok(sc) => scene_ok(v@) && scene_rel(sc, v@),
            Err(e) => !scene_ok(v@) && (e == DecodeError::Shape || e == DecodeError::Timestamp),
        },
{
    match v {
        JsonValue::Obj(members) => {
            proof {
                assert(v@ == JVal::Obj(members_view(members@)));
            }
            let tag = get_req_str(members, "type")?;
            if !str_eq(tag.as_str(), "userScene") {
                return Err(DecodeError::Shape);
            }
            let data = decode_scene_data(members)?;
            Ok(Scene::UserScene(data))
        },
        _ => Err(DecodeError::Shape),
    }
}

/// When a whole listing is acceptable: an array of acceptable records.
pub open spec fn scenes_ok(j: JVal) -> bool {
    match j {
        JVal::Arr(items) => forall|i: int|
            #![trigger scene_ok(items[i])]
            0 <= i < items.len() ==> scene_ok(items[i]),
        _ => false,
    }
}

/// Which scenes an acceptable listing denotes, in order.
pub open spec fn scenes_rel(ss: Seq<Scene>, j: JVal) -> bool {
    match j {
        JVal::Arr(items) => ss.len() == items.len() && forall|i: int|
            #![trigger ss[i]]
            0 <= i < items.len() ==> scene_rel(ss[i], items[i]),
        _ => false,
    }
}

/// Decode a scene listing.
pub fn decode_scenes(v: &JsonValue) -> (r: Result<Vec<Scene>, DecodeError>)
    ensures
        match r {
            Ok(ss) => scenes_ok(v@) && scenes_rel(ss@, v@),
            Err(e) => !scenes_ok(v@) && (e == DecodeError::Shape || e == DecodeError::Timestamp),
        },
{
    match v {
        JsonValue::Arr(items) => {
            let ghost gitems = list_view(items@);
            proof {
                assert(v@ == JVal::Arr(gitems));
                lemma_list_view_len(items@);
            }
            let n = items.len();
            let mut out: Vec<Scene> = Vec::new();
            let mut i: usize = 0;
            while i < n
                invariant
                    n == items@.len(),
                    gitems == list_view(items@),
                    gitems.len() == n,
                    v@ == JVal::Arr(gitems),
                    i <= n,
                    out@.len() == i,
                    forall|q: int| #![trigger out@[q]] 0 <= q < i ==> scene_rel(out@[q], gitems[q]),
                    forall|q: int|
                        #![trigger scene_ok(gitems[q])]
                        0 <= q < i ==> scene_ok(gitems[q]),
                decreases n - i,
            {
                proof {
                    lemma_list_view_index(items@, i as int);
                }
                match decode_scene(&items[i]) {
                    Ok(sc) => {
                        out.push(sc);
                    },
                    Err(e) => {
                        proof {
                            assert(!scene_ok(gitems[i as int]));
                            assert(v@ is Arr);
                            assert(v@->Arr_0 == gitems);
                            if scenes_ok(v@) {
                                assert(scene_ok(gitems[i as int]));
                            }
                        }
                        return Err(e);
                    },
                }
                i = i + 1;
            }
            Ok(out)
        },
        _ => Err(DecodeError::Shape),
    }
}

} // verus!
