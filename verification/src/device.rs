//! The devices a hub can manage, divided into kinds and represented as the
//! [`Device`] enum, one variant per kind, all sharing the same record shape.
use vstd::prelude::*;

use crate::decode::arr_str_ok;
use crate::decode::arr_str_rel;
use crate::decode::get_opt_bool;
use crate::decode::get_opt_int;
use crate::decode::get_opt_millis;
use crate::decode::get_opt_str;
use crate::decode::get_req_bool;
use crate::decode::get_req_int;
use crate::decode::get_req_str;
use crate::decode::get_req_ts;
use crate::decode::get_str_array;
use crate::decode::jget;
use crate::decode::millis_opt_ok;
use crate::decode::millis_opt_rel;
use crate::decode::num_opt_ok;
use crate::decode::num_opt_rel;
use crate::decode::num_req_ok;
use crate::decode::num_req_rel;
use crate::decode::obj_get;
use crate::decode::opt_bool_ok;
use crate::decode::opt_bool_rel;
use crate::decode::opt_str_ok;
use crate::decode::opt_str_rel;
use crate::decode::req_bool_ok;
use crate::decode::req_bool_rel;
use crate::decode::req_str_ok;
use crate::decode::req_str_rel;
use crate::decode::req_ts_ok;
use crate::decode::req_ts_rel;
use crate::error::DecodeError;
use crate::instant::Instant;
use crate::json::JVal;
use crate::json::JsonMember;
use crate::json::JsonValue;
use crate::json::lemma_list_view_index;
use crate::json::lemma_list_view_len;
use crate::json::list_view;
use crate::json::members_view;
use crate::text::str_eq;

verus! {

/// A resource that is able to connect to the hub, or the hub itself. The
/// record's `type` tag picks the variant; the data is shared between kinds.
#[derive(Debug, Clone, PartialEq)]
pub enum Device {
    Blind(DeviceData),
    Controller(DeviceData),
    Gateway(DeviceData),
    Light(DeviceData),
    Outlet(DeviceData),
    Sensor(DeviceData),
}

/// Common data shared between all [`Device`]s.
#[derive(Debug, Clone, PartialEq)]
pub struct DeviceData {
    pub id: String,
    pub device_type: DeviceType,
    pub created_at: Instant,
    pub is_reachable: bool,
    pub is_hidden: Option<bool>,
    pub last_seen: Instant,
    pub room: Option<Room>,
    pub attributes: Attributes,
    pub remote_links: Vec<String>,
    pub capabilities: Capabilities,
}

/// What a device declares it can emit (`can_send`) and what commands it
/// accepts (`can_receive`), each as a list of [`Capability`] tags.
#[derive(Debug, Clone, PartialEq)]
pub struct Capabilities {
    pub can_send: Vec<Capability>,
    pub can_receive: Vec<Capability>,
}

/// Available capabilities across all devices, used symmetrically as "can
/// send" and "can receive" tags.
#[derive(Debug, Clone, Copy, PartialEq, Eq, Structural)]
pub enum Capability {
    BlindsState,
    ColorHue,
    ColorSaturation,
    ColorTemperature,
    Coordinates,
    CountryCode,
    CustomName,
    IsOn,
    LightLevel,
    LogLevel,
    PermittingJoin,
    Time,
    Timezone,
    UserConsents,
}

/// A device carries both the `type` tag (the [`Device`] variant) and a
/// declared `deviceType`. The two taxonomies do not always agree and both
/// are retained.
#[derive(Debug, Clone, Copy, PartialEq, Eq, Structural)]
pub enum DeviceType {
    LightController,
    Light,
    Gateway,
    MotionSensor,
    Outlet,
}

/// How a device starts after it regains power: on, off, as before, or
/// toggled.
#[derive(Debug, Clone, Copy, PartialEq, Eq, Structural)]
pub enum Startup {
    StartOn,
    StartOff,
    StartPrevious,
    StartToggle,
}

/// The room a device is bound to, with the icon and color chosen in the
/// vendor's app.
#[derive(Debug, Clone, PartialEq)]
pub struct Room {
    pub id: String,
    pub name: String,
    pub color: String,
    pub icon: String,
}

/// Every device answers with one flat attributes record covering the union
/// of all kinds' fields; a field outside a kind's applicable subset is
/// absent. Consult the device's capabilities before trusting a field's
/// meaning.
///
/// Color hue is stored in thousandths of a degree and color saturation in
/// thousandths of the unit interval, so that the record holds plain
/// integers end to end.
#[derive(Debug, Clone, PartialEq)]
pub struct Attributes {
    pub custom_name: String,
    pub firmware_version: String,
    pub hardware_version: String,
    pub manufacturer: String,
    pub model: String,
    pub ota_policy: String,
    pub ota_progress: u8,
    pub ota_schedule_end: String,
    pub ota_schedule_start: String,
    pub ota_state: String,
    pub ota_status: String,
    pub product_code: Option<String>,
    pub serial_number: String,
    pub is_on: bool,
    pub startup_on_off: Option<Startup>,
    pub light_level: Option<u8>,
    pub permitting_join: bool,
    pub color_mode: Option<String>,
    pub color_temperature: Option<u16>,
    pub color_temperature_min: Option<u16>,
    pub color_temperature_max: Option<u16>,
    pub startup_temperature: Option<i16>,
    pub color_hue_millis: Option<i64>,
    pub color_saturation_millis: Option<i64>,
    pub circadian_rhythm_mode: Option<String>,
    pub battery_percentage: Option<u8>,
    pub blinds_current_level: Option<u8>,
    pub blinds_target_level: Option<u8>,
    pub blinds_state: Option<String>,
    pub current_temperature: Option<u8>,
    pub current_r_h: Option<u8>,
    pub current_p_m25: Option<u8>,
    pub max_measured_p_m25: Option<u8>,
    pub min_measured_p_m25: Option<u8>,
    pub voc_index: Option<u8>,
    pub is_open: Option<bool>,
}

impl Device {
    /// The shared record, regardless of variant.
    pub open spec fn spec_inner(self) -> DeviceData {
        match self {
            Device::Blind(inner) => inner,
            Device::Controller(inner) => inner,
            Device::Gateway(inner) => inner,
            Device::Light(inner) => inner,
            Device::Outlet(inner) => inner,
            Device::Sensor(inner) => inner,
        }
    }

    /// Get a reference to the [`DeviceData`] for the [`Device`].
    pub fn inner(&self) -> (r: &DeviceData)
        ensures
            *r == self.spec_inner(),
    {
        match self {
            Device::Blind(inner) => inner,
            Device::Controller(inner) => inner,
            Device::Gateway(inner) => inner,
            Device::Light(inner) => inner,
            Device::Outlet(inner) => inner,
            Device::Sensor(inner) => inner,
        }
    }
}

/// The wire name of each capability tag.
pub open spec fn cap_of_name(s: Seq<char>) -> Option<Capability> {
    if s == "blindsState"@ {
        Some(Capability::BlindsState)
    } else if s == "colorHue"@ {
        Some(Capability::ColorHue)
    } else if s == "colorSaturation"@ {
        Some(Capability::ColorSaturation)
    } else if s == "colorTemperature"@ {
        Some(Capability::ColorTemperature)
    } else if s == "coordinates"@ {
        Some(Capability::Coordinates)
    } else if s == "countryCode"@ {
        Some(Capability::CountryCode)
    } else if s == "customName"@ {
        Some(Capability::CustomName)
    } else if s == "isOn"@ {
        Some(Capability::IsOn)
    } else if s == "lightLevel"@ {
        Some(Capability::LightLevel)
    } else if s == "logLevel"@ {
        Some(Capability::LogLevel)
    } else if s == "permittingJoin"@ {
        Some(Capability::PermittingJoin)
    } else if s == "time"@ {
        Some(Capability::Time)
    } else if s == "timezone"@ {
        Some(Capability::Timezone)
    } else if s == "userConsents"@ {
        Some(Capability::UserConsents)
    } else {
        None
    }
}

/// Map a wire capability name to its tag.
pub fn capability_of_name(s: &str) -> (r: Option<Capability>)
    ensures
        r == cap_of_name(s@),
{
    if str_eq(s, "blindsState") {
        Some(Capability::BlindsState)
    } else if str_eq(s, "colorHue") {
        Some(Capability::ColorHue)
    } else if str_eq(s, "colorSaturation") {
        Some(Capability::ColorSaturation)
    } else if str_eq(s, "colorTemperature") {
        Some(Capability::ColorTemperature)
    } else if str_eq(s, "coordinates") {
        Some(Capability::Coordinates)
    } else if str_eq(s, "countryCode") {
        Some(Capability::CountryCode)
    } else if str_eq(s, "customName") {
        Some(Capability::CustomName)
    } else if str_eq(s, "isOn") {
        Some(Capability::IsOn)
    } else if str_eq(s, "lightLevel") {
        Some(Capability::LightLevel)
    } else if str_eq(s, "logLevel") {
        Some(Capability::LogLevel)
    } else if str_eq(s, "permittingJoin") {
        Some(Capability::PermittingJoin)
    } else if str_eq(s, "time") {
        Some(Capability::Time)
    } else if str_eq(s, "timezone") {
        Some(Capability::Timezone)
    } else if str_eq(s, "userConsents") {
        Some(Capability::UserConsents)
    } else {
        None
    }
}

/// The wire name of each declared device type.
pub open spec fn device_type_of_name(s: Seq<char>) -> Option<DeviceType> {
    if s == "lightController"@ {
        Some(DeviceType::LightController)
    } else if s == "light"@ {
        Some(DeviceType::Light)
    } else if s == "gateway"@ {
        Some(DeviceType::Gateway)
    } else if s == "motionSensor"@ {
        Some(DeviceType::MotionSensor)
    } else if s == "outlet"@ {
        Some(DeviceType::Outlet)
    } else {
        None
    }
}

fn device_type_of_name_x(s: &str) -> (r: Option<DeviceType>)
    ensures
        r == device_type_of_name(s@),
{
    if str_eq(s, "lightController") {
        Some(DeviceType::LightController)
    } else if str_eq(s, "light") {
        Some(DeviceType::Light)
    } else if str_eq(s, "gateway") {
        Some(DeviceType::Gateway)
    } else if str_eq(s, "motionSensor") {
        Some(DeviceType::MotionSensor)
    } else if str_eq(s, "outlet") {
        Some(DeviceType::Outlet)
    } else {
        None
    }
}

/// The wire name of each startup behaviour.
pub open spec fn startup_of_name(s: Seq<char>) -> Option<Startup> {
    if s == "startOn"@ {
        Some(Startup::StartOn)
    } else if s == "startOff"@ {
        Some(Startup::StartOff)
    } else if s == "startPrevious"@ {
        Some(Startup::StartPrevious)
    } else if s == "startToggle"@ {
        Some(Startup::StartToggle)
    } else {
        None
    }
}

fn startup_of_name_x(s: &str) -> (r: Option<Startup>)
    ensures
        r == startup_of_name(s@),
{
    if str_eq(s, "startOn") {
        Some(Startup::StartOn)
    } else if str_eq(s, "startOff") {
        Some(Startup::StartOff)
    } else if str_eq(s, "startPrevious") {
        Some(Startup::StartPrevious)
    } else if str_eq(s, "startToggle") {
        Some(Startup::StartToggle)
    } else {
        None
    }
}

/// What a startup behaviour is called on the wire.
pub open spec fn startup_wire_name(st: Startup) -> Seq<char> {
    match st {
        Startup::StartOn => "startOn"@,
        Startup::StartOff => "startOff"@,
        Startup::StartPrevious => "startPrevious"@,
        Startup::StartToggle => "startToggle"@,
    }
}

pub fn startup_name(st: &Startup) -> (r: &'static str)
    ensures
        r@ == startup_wire_name(*st),
{
    match st {
        Startup::StartOn => "startOn",
        Startup::StartOff => "startOff",
        Startup::StartPrevious => "startPrevious",
        Startup::StartToggle => "startToggle",
    }
}

/// A required array of capability names.
pub open spec fn arr_caps_ok(m: Seq<(Seq<char>, JVal)>, k: Seq<char>) -> bool {
    match jget(m, k) {
        Some(JVal::Arr(items)) => forall|i: int|
            #![trigger items[i]]
            0 <= i < items.len() ==> (items[i] matches JVal::Str(s) && cap_of_name(s) is Some),
        _ => false,
    }
}

pub open spec fn arr_caps_rel(cs: Seq<Capability>, m: Seq<(Seq<char>, JVal)>, k: Seq<char>) -> bool {
    match jget(m, k) {
        Some(JVal::Arr(items)) => cs.len() == items.len() && forall|i: int|
            #![trigger items[i]]
            0 <= i < items.len() ==> (items[i] matches JVal::Str(s) && cap_of_name(s) == Some(
                cs[i],
            )),
        _ => false,
    }
}

fn get_caps(members: &Vec<JsonMember>, key: &str) -> (r: Result<Vec<Capability>, DecodeError>)
    ensures
        match r {
            Ok(v) => arr_caps_ok(members_view(members@), key@) && arr_caps_rel(
                v@,
                members_view(members@),
                key@,
            ),
            Err(e) => !arr_caps_ok(members_view(members@), key@) && e == DecodeError::Shape,
        },
{
    match obj_get(members, key) {
        Some(jv) => match jv {
            JsonValue::Arr(items) => {
                let ghost gitems = list_view(items@);
                proof {
                    assert(jv@ == JVal::Arr(gitems));
                    lemma_list_view_len(items@);
                }
                let n = items.len();
                let mut out: Vec<Capability> = Vec::new();
                let mut i: usize = 0;
                while i < n
                    invariant
                        n == items@.len(),
                        gitems == list_view(items@),
                        gitems.len() == n,
                        jget(members_view(members@), key@) == Some(JVal::Arr(gitems)),
                        i <= n,
                        out@.len() == i,
                        forall|q: int|
                            #![trigger gitems[q]]
                            0 <= q < i ==> (gitems[q] matches JVal::Str(s) && cap_of_name(s)
                                == Some(out@[q])),
                    decreases n - i,
                {
                    proof {
                        lemma_list_view_index(items@, i as int);
                    }
                    match &items[i] {
                        JsonValue::Str(s) => match capability_of_name(s.as_str()) {
                            Some(c) => {
                                out.push(c);
                            },
                            None => {
                                proof {
                                    assert(gitems[i as int] matches JVal::Str(t) && cap_of_name(t)
                                        is None);
                                }
                                return Err(DecodeError::Shape);
                            },
                        },
                        _ => {
                            proof {
                                assert(!(gitems[i as int] is Str));
                            }
                            return Err(DecodeError::Shape);
                        },
                    }
                    i = i + 1;
                }
                proof {
                    assert(arr_caps_rel(out@, members_view(members@), key@));
                }
                Ok(out)
            },
            _ => Err(DecodeError::Shape),
        },
        None => Err(DecodeError::Shape),
    }
}

/// The `capabilities` member: an object with `canSend` and `canReceive`
/// capability-name arrays.
pub open spec fn capabilities_ok(m: Seq<(Seq<char>, JVal)>) -> bool {
    match jget(m, "capabilities"@) {
        Some(JVal::Obj(cm)) => arr_caps_ok(cm, "canSend"@) && arr_caps_ok(cm, "canReceive"@),
        _ => false,
    }
}

pub open spec fn capabilities_rel(c: Capabilities, m: Seq<(Seq<char>, JVal)>) -> bool {
    match jget(m, "capabilities"@) {
        Some(JVal::Obj(cm)) => arr_caps_rel(c.can_send@, cm, "canSend"@) && arr_caps_rel(
            c.can_receive@,
            cm,
            "canReceive"@,
        ),
        _ => false,
    }
}

fn get_capabilities(members: &Vec<JsonMember>) -> (r: Result<Capabilities, DecodeError>)
    ensures
        match r {
            Ok(c) => capabilities_ok(members_view(members@)) && capabilities_rel(
                c,
                members_view(members@),
            ),
            Err(e) => !capabilities_ok(members_view(members@)) && e == DecodeError::Shape,
        },
{
    match obj_get(members, "capabilities") {
        Some(jv) => match jv {
            JsonValue::Obj(cm) => {
                proof {
                    assert(jv@ == JVal::Obj(members_view(cm@)));
                }
                let can_send = get_caps(cm, "canSend")?;
                let can_receive = get_caps(cm, "canReceive")?;
                Ok(Capabilities { can_send, can_receive })
            },
            _ => Err(DecodeError::Shape),
        },
        None => Err(DecodeError::Shape),
    }
}

/// The nested room record.
pub open spec fn room_ok(rm: Seq<(Seq<char>, JVal)>) -> bool {
    req_str_ok(rm, "id"@) && req_str_ok(rm, "name"@) && req_str_ok(rm, "color"@) && req_str_ok(
        rm,
        "icon"@,
    )
}

pub open spec fn room_rel(r: Room, rm: Seq<(Seq<char>, JVal)>) -> bool {
    req_str_rel(r.id, rm, "id"@) && req_str_rel(r.name, rm, "name"@) && req_str_rel(
        r.color,
        rm,
        "color"@,
    ) && req_str_rel(r.icon, rm, "icon"@)
}

/// The optional `room` member.
pub open spec fn opt_room_ok(m: Seq<(Seq<char>, JVal)>) -> bool {
    match jget(m, "room"@) {
        None => true,
        Some(JVal::Null) => true,
        Some(JVal::Obj(rm)) => room_ok(rm),
        _ => false,
    }
}

pub open spec fn opt_room_rel(o: Option<Room>, m: Seq<(Seq<char>, JVal)>) -> bool {
    match jget(m, "room"@) {
        None => o is None,
        Some(JVal::Null) => o is None,
        Some(JVal::Obj(rm)) => o matches Some(r) && room_rel(r, rm),
        _ => false,
    }
}

fn get_room(members: &Vec<JsonMember>) -> (r: Result<Option<Room>, DecodeError>)
    ensures
        match r {
            Ok(o) => opt_room_ok(members_view(members@)) && opt_room_rel(
                o,
                members_view(members@),
            ),
            Err(e) => !opt_room_ok(members_view(members@)) && e == DecodeError::Shape,
        },
{
    match obj_get(members, "room") {
        None => Ok(None),
        Some(jv) => match jv {
            JsonValue::Null => Ok(None),
            JsonValue::Obj(rm) => {
                proof {
                    assert(jv@ == JVal::Obj(members_view(rm@)));
                }
                let id = get_req_str(rm, "id")?;
                let name = get_req_str(rm, "name")?;
                let color = get_req_str(rm, "color")?;
                let icon = get_req_str(rm, "icon")?;
                Ok(Some(Room { id, name, color, icon }))
            },
            _ => Err(DecodeError::Shape),
        },
    }
}

/// The optional `startupOnOff` member.
pub open spec fn opt_startup_ok(m: Seq<(Seq<char>, JVal)>, k: Seq<char>) -> bool {
    match jget(m, k) {
        None => true,
        Some(JVal::Null) => true,
        Some(JVal::Str(s)) => startup_of_name(s) is Some,
        _ => false,
    }
}

pub open spec fn opt_startup_rel(x: Option<Startup>, m: Seq<(Seq<char>, JVal)>, k: Seq<char>) -> bool {
    match jget(m, k) {
        None => x is None,
        Some(JVal::Null) => x is None,
        Some(JVal::Str(s)) => x matches Some(st) && startup_of_name(s) == Some(st),
        _ => false,
    }
}

fn get_opt_startup(members: &Vec<JsonMember>, key: &str) -> (r: Result<
    Option<Startup>,
    DecodeError,
>)
    ensures
        match r {
            Ok(v) => opt_startup_ok(members_view(members@), key@) && opt_startup_rel(
                v,
                members_view(members@),
                key@,
            ),
            Err(e) => !opt_startup_ok(members_view(members@), key@) && e == DecodeError::Shape,
        },
{
    match obj_get(members, key) {
        None => Ok(None),
        Some(jv) => match jv {
            JsonValue::Null => Ok(None),
            JsonValue::Str(s) => match startup_of_name_x(s.as_str()) {
                Some(st) => Ok(Some(st)),
                None => Err(DecodeError::Shape),
            },
            _ => Err(DecodeError::Shape),
        },
    }
}

/// When the flat attributes object is acceptable, member by member.
pub open spec fn attributes_ok(am: Seq<(Seq<char>, JVal)>) -> bool {
    &&& req_str_ok(am, "customName"@)
    &&& req_str_ok(am, "firmwareVersion"@)
    &&& req_str_ok(am, "hardwareVersion"@)
    &&& req_str_ok(am, "manufacturer"@)
    &&& req_str_ok(am, "model"@)
    &&& req_str_ok(am, "otaPolicy"@)
    &&& num_req_ok(am, "otaProgress"@, 0, 255)
    &&& req_str_ok(am, "otaScheduleEnd"@)
    &&& req_str_ok(am, "otaScheduleStart"@)
    &&& req_str_ok(am, "otaState"@)
    &&& req_str_ok(am, "otaStatus"@)
    &&& opt_str_ok(am, "productCode"@)
    &&& req_str_ok(am, "serialNumber"@)
    &&& req_bool_ok(am, "isOn"@)
    &&& opt_startup_ok(am, "startupOnOff"@)
    &&& num_opt_ok(am, "lightLevel"@, 0, 255)
    &&& req_bool_ok(am, "permittingJoin"@)
    &&& opt_str_ok(am, "colorMode"@)
    &&& num_opt_ok(am, "colorTemperature"@, 0, 65535)
    &&& num_opt_ok(am, "colorTemperatureMin"@, 0, 65535)
    &&& num_opt_ok(am, "colorTemperatureMax"@, 0, 65535)
    &&& num_opt_ok(am, "startupTemperature"@, -32768, 32767)
    &&& millis_opt_ok(am, "colorHue"@)
    &&& millis_opt_ok(am, "colorSaturation"@)
    &&& opt_str_ok(am, "circadianRhythmMode"@)
    &&& num_opt_ok(am, "batteryPercentage"@, 0, 255)
    &&& num_opt_ok(am, "blindsCurrentLevel"@, 0, 255)
    &&& num_opt_ok(am, "blindsTargetLevel"@, 0, 255)
    &&& opt_str_ok(am, "blindsState"@)
    &&& num_opt_ok(am, "currentTemperature"@, 0, 255)
    &&& num_opt_ok(am, "currentRH"@, 0, 255)
    &&& num_opt_ok(am, "currentPM25"@, 0, 255)
    &&& num_opt_ok(am, "maxMeasuredPM25"@, 0, 255)
    &&& num_opt_ok(am, "minMeasuredPM25"@, 0, 255)
    &&& num_opt_ok(am, "vocIndex"@, 0, 255)
    &&& opt_bool_ok(am, "isOpen"@)
}

/// Which attributes record an acceptable object denotes, member by member.
pub open spec fn attributes_rel(a: Attributes, am: Seq<(Seq<char>, JVal)>) -> bool {
    &&& req_str_rel(a.custom_name, am, "customName"@)
    &&& req_str_rel(a.firmware_version, am, "firmwareVersion"@)
    &&& req_str_rel(a.hardware_version, am, "hardwareVersion"@)
    &&& req_str_rel(a.manufacturer, am, "manufacturer"@)
    &&& req_str_rel(a.model, am, "model"@)
    &&& req_str_rel(a.ota_policy, am, "otaPolicy"@)
    &&& num_req_rel(a.ota_progress as int, am, "otaProgress"@)
    &&& req_str_rel(a.ota_schedule_end, am, "otaScheduleEnd"@)
    &&& req_str_rel(a.ota_schedule_start, am, "otaScheduleStart"@)
    &&& req_str_rel(a.ota_state, am, "otaState"@)
    &&& req_str_rel(a.ota_status, am, "otaStatus"@)
    &&& opt_str_rel(a.product_code, am, "productCode"@)
    &&& req_str_rel(a.serial_number, am, "serialNumber"@)
    &&& req_bool_rel(a.is_on, am, "isOn"@)
    &&& opt_startup_rel(a.startup_on_off, am, "startupOnOff"@)
    &&& num_opt_rel(crate::decode::opt_int_of_u8(a.light_level), am, "lightLevel"@)
    &&& req_bool_rel(a.permitting_join, am, "permittingJoin"@)
    &&& opt_str_rel(a.color_mode, am, "colorMode"@)
    &&& num_opt_rel(crate::decode::opt_int_of_u16(a.color_temperature), am, "colorTemperature"@)
    &&& num_opt_rel(
        crate::decode::opt_int_of_u16(a.color_temperature_min),
        am,
        "colorTemperatureMin"@,
    )
    &&& num_opt_rel(
        crate::decode::opt_int_of_u16(a.color_temperature_max),
        am,
        "colorTemperatureMax"@,
    )
    &&& num_opt_rel(
        crate::decode::opt_int_of_i16(a.startup_temperature),
        am,
        "startupTemperature"@,
    )
    &&& millis_opt_rel(crate::decode::opt_int_of_i64(a.color_hue_millis), am, "colorHue"@)
    &&& millis_opt_rel(
        crate::decode::opt_int_of_i64(a.color_saturation_millis),
        am,
        "colorSaturation"@,
    )
    &&& opt_str_rel(a.circadian_rhythm_mode, am, "circadianRhythmMode"@)
    &&& num_opt_rel(crate::decode::opt_int_of_u8(a.battery_percentage), am, "batteryPercentage"@)
    &&& num_opt_rel(
        crate::decode::opt_int_of_u8(a.blinds_current_level),
        am,
        "blindsCurrentLevel"@,
    )
    &&& num_opt_rel(crate::decode::opt_int_of_u8(a.blinds_target_level), am, "blindsTargetLevel"@)
    &&& opt_str_rel(a.blinds_state, am, "blindsState"@)
    &&& num_opt_rel(crate::decode::opt_int_of_u8(a.current_temperature), am, "currentTemperature"@)
    &&& num_opt_rel(crate::decode::opt_int_of_u8(a.current_r_h), am, "currentRH"@)
    &&& num_opt_rel(crate::decode::opt_int_of_u8(a.current_p_m25), am, "currentPM25"@)
    &&& num_opt_rel(crate::decode::opt_int_of_u8(a.max_measured_p_m25), am, "maxMeasuredPM25"@)
    &&& num_opt_rel(crate::decode::opt_int_of_u8(a.min_measured_p_m25), am, "minMeasuredPM25"@)
    &&& num_opt_rel(crate::decode::opt_int_of_u8(a.voc_index), am, "vocIndex"@)
    &&& opt_bool_rel(a.is_open, am, "isOpen"@)
}

/// Decode the flat attributes object.
pub fn decode_attributes(members: &Vec<JsonMember>) -> (r: Result<Attributes, DecodeError>)
    ensures
        match r {
            Ok(a) => attributes_ok(members_view(members@)) && attributes_rel(
                a,
                members_view(members@),
            ),
            Err(e) => !attributes_ok(members_view(members@)) && e == DecodeError::Shape,
        },
{
    let custom_name = get_req_str(members, "customName")?;
    let firmware_version = get_req_str(members, "firmwareVersion")?;
    let hardware_version = get_req_str(members, "hardwareVersion")?;
    let manufacturer = get_req_str(members, "manufacturer")?;
    let model = get_req_str(members, "model")?;
    let ota_policy = get_req_str(members, "otaPolicy")?;
    let ota_progress = get_req_int(members, "otaProgress", 0, 255)?;
    let ota_schedule_end = get_req_str(members, "otaScheduleEnd")?;
    let ota_schedule_start = get_req_str(members, "otaScheduleStart")?;
    let ota_state = get_req_str(members, "otaState")?;
    let ota_status = get_req_str(members, "otaStatus")?;
    let product_code = get_opt_str(members, "productCode")?;
    let serial_number = get_req_str(members, "serialNumber")?;
    let is_on = get_req_bool(members, "isOn")?;
    let startup_on_off = get_opt_startup(members, "startupOnOff")?;
    let light_level = crate::decode::to_opt_u8(get_opt_int(members, "lightLevel", 0, 255)?);
    let permitting_join = get_req_bool(members, "permittingJoin")?;
    let color_mode = get_opt_str(members, "colorMode")?;
    let color_temperature = crate::decode::to_opt_u16(
        get_opt_int(members, "colorTemperature", 0, 65535)?,
    );
    let color_temperature_min = crate::decode::to_opt_u16(
        get_opt_int(members, "colorTemperatureMin", 0, 65535)?,
    );
    let color_temperature_max = crate::decode::to_opt_u16(
        get_opt_int(members, "colorTemperatureMax", 0, 65535)?,
    );
    let startup_temperature = crate::decode::to_opt_i16(
        get_opt_int(members, "startupTemperature", -32768, 32767)?,
    );
    let color_hue_millis = get_opt_millis(members, "colorHue")?;
    let color_saturation_millis = get_opt_millis(members, "colorSaturation")?;
    let circadian_rhythm_mode = get_opt_str(members, "circadianRhythmMode")?;
    let battery_percentage = crate::decode::to_opt_u8(
        get_opt_int(members, "batteryPercentage", 0, 255)?,
    );
    let blinds_current_level = crate::decode::to_opt_u8(
        get_opt_int(members, "blindsCurrentLevel", 0, 255)?,
    );
    let blinds_target_level = crate::decode::to_opt_u8(
        get_opt_int(members, "blindsTargetLevel", 0, 255)?,
    );
    let blinds_state = get_opt_str(members, "blindsState")?;
    let current_temperature = crate::decode::to_opt_u8(
        get_opt_int(members, "currentTemperature", 0, 255)?,
    );
    let current_r_h = crate::decode::to_opt_u8(get_opt_int(members, "currentRH", 0, 255)?);
    let current_p_m25 = crate::decode::to_opt_u8(get_opt_int(members, "currentPM25", 0, 255)?);
    let max_measured_p_m25 = crate::decode::to_opt_u8(
        get_opt_int(members, "maxMeasuredPM25", 0, 255)?,
    );
    let min_measured_p_m25 = crate::decode::to_opt_u8(
        get_opt_int(members, "minMeasuredPM25", 0, 255)?,
    );
    let voc_index = crate::decode::to_opt_u8(get_opt_int(members, "vocIndex", 0, 255)?);
    let is_open = get_opt_bool(members, "isOpen")?;
    Ok(
        Attributes {
            custom_name,
            firmware_version,
            hardware_version,
            manufacturer,
            model,
            ota_policy,
            ota_progress: ota_progress as u8,
            ota_schedule_end,
            ota_schedule_start,
            ota_state,
            ota_status,
            product_code,
            serial_number,
            is_on,
            startup_on_off,
            light_level,
            permitting_join,
            color_mode,
            color_temperature,
            color_temperature_min,
            color_temperature_max,
            startup_temperature,
            color_hue_millis,
            color_saturation_millis,
            circadian_rhythm_mode,
            battery_percentage,
            blinds_current_level,
            blinds_target_level,
            blinds_state,
            current_temperature,
            current_r_h,
            current_p_m25,
            max_measured_p_m25,
            min_measured_p_m25,
            voc_index,
            is_open,
        },
    )
}

/// The declared `deviceType` member.
pub open spec fn dtype_ok(m: Seq<(Seq<char>, JVal)>) -> bool {
    match jget(m, "deviceType"@) {
        Some(JVal::Str(s)) => device_type_of_name(s) is Some,
        _ => false,
    }
}

pub open spec fn dtype_rel(t: DeviceType, m: Seq<(Seq<char>, JVal)>) -> bool {
    match jget(m, "deviceType"@) {
        Some(JVal::Str(s)) => device_type_of_name(s) == Some(t),
        _ => false,
    }
}

/// The nested `attributes` member.
pub open spec fn device_attrs_ok(m: Seq<(Seq<char>, JVal)>) -> bool {
    match jget(m, "attributes"@) {
        Some(JVal::Obj(am)) => attributes_ok(am),
        _ => false,
    }
}

pub open spec fn device_attrs_rel(a: Attributes, m: Seq<(Seq<char>, JVal)>) -> bool {
    match jget(m, "attributes"@) {
        Some(JVal::Obj(am)) => attributes_rel(a, am),
        _ => false,
    }
}

/// When a device record's members are acceptable. The `createdAt` and
/// `lastSeen` timestamps are required and strict; unknown members are
/// ignored.
pub open spec fn device_data_ok(m: Seq<(Seq<char>, JVal)>) -> bool {
    &&& req_str_ok(m, "id"@)
    &&& dtype_ok(m)
    &&& req_ts_ok(m, "createdAt"@)
    &&& req_bool_ok(m, "isReachable"@)
    &&& opt_bool_ok(m, "isHidden"@)
    &&& req_ts_ok(m, "lastSeen"@)
    &&& opt_room_ok(m)
    &&& device_attrs_ok(m)
    &&& arr_str_ok(m, "remoteLinks"@)
    &&& capabilities_ok(m)
}

/// Which record an acceptable device object denotes.
pub open spec fn device_data_rel(d: DeviceData, m: Seq<(Seq<char>, JVal)>) -> bool {
    &&& req_str_rel(d.id, m, "id"@)
    &&& dtype_rel(d.device_type, m)
    &&& req_ts_rel(d.created_at, m, "createdAt"@)
    &&& req_bool_rel(d.is_reachable, m, "isReachable"@)
    &&& opt_bool_rel(d.is_hidden, m, "isHidden"@)
    &&& req_ts_rel(d.last_seen, m, "lastSeen"@)
    &&& opt_room_rel(d.room, m)
    &&& device_attrs_rel(d.attributes, m)
    &&& arr_str_rel(d.remote_links@, m, "remoteLinks"@)
    &&& capabilities_rel(d.capabilities, m)
}

fn decode_device_data(members: &Vec<JsonMember>) -> (r: Result<DeviceData, DecodeError>)
    ensures
        match r {
            Ok(d) => device_data_ok(members_view(members@)) && device_data_rel(
                d,
                members_view(members@),
            ),
            Err(e) => !device_data_ok(members_view(members@)) && (e == DecodeError::Shape || e
                == DecodeError::Timestamp),
        },
{
    let id = get_req_str(members, "id")?;
    let device_type = match obj_get(members, "deviceType") {
        Some(jv) => match jv {
            JsonValue::Str(s) => match device_type_of_name_x(s.as_str()) {
                Some(t) => t,
                None => {
                    return Err(DecodeError::Shape);
                },
            },
            _ => {
                return Err(DecodeError::Shape);
            },
        },
        None => {
            return Err(DecodeError::Shape);
        },
    };
    let created_at = get_req_ts(members, "createdAt")?;
    let is_reachable = get_req_bool(members, "isReachable")?;
    let is_hidden = get_opt_bool(members, "isHidden")?;
    let last_seen = get_req_ts(members, "lastSeen")?;
    let room = get_room(members)?;
    let attributes = match obj_get(members, "attributes") {
        Some(jv) => match jv {
            JsonValue::Obj(am) => {
                proof {
                    assert(jv@ == JVal::Obj(members_view(am@)));
                }
                decode_attributes(am)?
            },
            _ => {
                return Err(DecodeError::Shape);
            },
        },
        None => {
            return Err(DecodeError::Shape);
        },
    };
    let remote_links = get_str_array(members, "remoteLinks")?;
    let capabilities = get_capabilities(members)?;
    Ok(
        DeviceData {
            id,
            device_type,
            created_at,
            is_reachable,
            is_hidden,
            last_seen,
            room,
            attributes,
            remote_links,
            capabilities,
        },
    )
}

/// When a whole device record, tag included, is acceptable.
pub open spec fn device_ok(j: JVal) -> bool {
    match j {
        JVal::Obj(m) => {
            let tag = jget(m, "type"@);
            (tag == Some(JVal::Str("blind"@)) || tag == Some(JVal::Str("controller"@)) || tag
                == Some(JVal::Str("gateway"@)) || tag == Some(JVal::Str("light"@)) || tag == Some(
                JVal::Str("outlet"@),
            ) || tag == Some(JVal::Str("sensor"@))) && device_data_ok(m)
        },
        _ => false,
    }
}

/// Which device an acceptable record denotes: the tag picks the variant and
/// the members fill the shared record.
pub open spec fn device_rel(dev: Device, j: JVal) -> bool {
    match j {
        JVal::Obj(m) => {
            let tag = jget(m, "type"@);
            match dev {
                Device::Blind(d) => tag == Some(JVal::Str("blind"@)) && device_data_rel(d, m),
                Device::Controller(d) => tag == Some(JVal::Str("controller"@)) && device_data_rel(
                    d,
                    m,
                ),
                Device::Gateway(d) => tag == Some(JVal::Str("gateway"@)) && device_data_rel(d, m),
                Device::Light(d) => tag == Some(JVal::Str("light"@)) && device_data_rel(d, m),
                Device::Outlet(d) => tag == Some(JVal::Str("outlet"@)) && device_data_rel(d, m),
                Device::Sensor(d) => tag == Some(JVal::Str("sensor"@)) && device_data_rel(d, m),
            }
        },
        _ => false,
    }
}

/// Decode one device record.
pub fn decode_device(v: &JsonValue) -> (r: Result<Device, DecodeError>)
    ensures
        match r {
            Ok(d) => device_ok(v@) && device_rel(d, v@),
            Err(e) => !device_ok(v@) && (e == DecodeError::Shape || e == DecodeError::Timestamp),
        },
{
    match v {
        JsonValue::Obj(members) => {
            proof {
                assert(v@ == JVal::Obj(members_view(members@)));
            }
            let tag = get_req_str(members, "type")?;
            let data = decode_device_data(members)?;
            if str_eq(tag.as_str(), "blind") {
                Ok(Device::Blind(data))
            } else if str_eq(tag.as_str(), "controller") {
                Ok(Device::Controller(data))
            } else if str_eq(tag.as_str(), "gateway") {
                Ok(Device::Gateway(data))
            } else if str_eq(tag.as_str(), "light") {
                Ok(Device::Light(data))
            } else if str_eq(tag.as_str(), "outlet") {
                Ok(Device::Outlet(data))
            } else if str_eq(tag.as_str(), "sensor") {
                Ok(Device::Sensor(data))
            } else {
                Err(DecodeError::Shape)
            }
        },
        _ => Err(DecodeError::Shape),
    }
}

/// When a whole listing is acceptable: an array of acceptable records.
pub open spec fn devices_ok(j: JVal) -> bool {
    match j {
        JVal::Arr(items) => forall|i: int|
            #![trigger device_ok(items[i])]
            0 <= i < items.len() ==> device_ok(items[i]),
        _ => false,
    }
}

/// Which devices an acceptable listing denotes, in order.
pub open spec fn devices_rel(ds: Seq<Device>, j: JVal) -> bool {
    match j {
        JVal::Arr(items) => ds.len() == items.len() && forall|i: int|
            #![trigger ds[i]]
            0 <= i < items.len() ==> device_rel(ds[i], items[i]),
        _ => false,
    }
}

/// Decode a device listing.
pub fn decode_devices(v: &JsonValue) -> (r: Result<Vec<Device>, DecodeError>)
    ensures
        match r {
            Ok(ds) => devices_ok(v@) && devices_rel(ds@, v@),
            Err(e) => !devices_ok(v@) && (e == DecodeError::Shape || e == DecodeError::Timestamp),
        },
{
    match v {
        JsonValue::Arr(items) => {
            let ghost gitems = list_view(items@);
            proof {
                assert(v@ == JVal::Arr(gitems));
                lemma_list_view_len(items@);
            }
            let n = items.len();
            let mut out: Vec<Device> = Vec::new();
            let mut i: usize = 0;
            while i < n
                invariant
                    n == items@.len(),
                    gitems == list_view(items@),
                    gitems.len() == n,
                    v@ == JVal::Arr(gitems),
                    i <= n,
                    out@.len() == i,
                    forall|q: int| #![trigger out@[q]] 0 <= q < i ==> device_rel(out@[q], gitems[q]),
                    forall|q: int|
                        #![trigger device_ok(gitems[q])]
                        0 <= q < i ==> device_ok(gitems[q]),
                decreases n - i,
            {
                proof {
                    lemma_list_view_index(items@, i as int);
                }
                match decode_device(&items[i]) {
                    Ok(d) => {
                        out.push(d);
                    },
                    Err(e) => {
                        proof {
                            assert(!device_ok(gitems[i as int]));
                            assert(v@ is Arr);
                            assert(v@->Arr_0 == gitems);
                            if devices_ok(v@) {
                                assert(forall|q: int|
                                    #![trigger device_ok(gitems[q])]
                                    0 <= q < gitems.len() ==> device_ok(gitems[q]));
                                assert(device_ok(gitems[i as int]));
                            }
                        }
                        return Err(e);
                    },
                }
                i = i + 1;
            }
            Ok(out)
        },
        _ => Err(DecodeError::Shape),
    }
}


impl Device {
    /// Whether this kind reports and accepts a power state.
    pub open spec fn kind_has_power(self) -> bool {
        self is Light || self is Outlet || self is Controller
    }

    /// The power state, for the kinds it applies to; other kinds answer
    /// the not-applicable error.
    pub fn is_on(&self) -> (r: Result<bool, crate::error::HubError>)
        ensures
            self.kind_has_power() ==> r == Ok::<bool, crate::error::HubError>(
                self.spec_inner().attributes.is_on,
            ),
            !self.kind_has_power() ==> r == Err::<bool, crate::error::HubError>(
                crate::error::HubError::Validation(crate::error::ValidationError::NotApplicable),
            ),
    {
        match self {
            Device::Light(d) => Ok(d.attributes.is_on),
            Device::Outlet(d) => Ok(d.attributes.is_on),
            Device::Controller(d) => Ok(d.attributes.is_on),
            _ => Err(
                crate::error::HubError::Validation(crate::error::ValidationError::NotApplicable),
            ),
        }
    }

    /// The light level, meaningful on lights only.
    pub fn light_level(&self) -> (r: Result<Option<u8>, crate::error::HubError>)
        ensures
            self is Light ==> r == Ok::<Option<u8>, crate::error::HubError>(
                self.spec_inner().attributes.light_level,
            ),
            !(self is Light) ==> r == Err::<Option<u8>, crate::error::HubError>(
                crate::error::HubError::Validation(crate::error::ValidationError::NotApplicable),
            ),
    {
        match self {
            Device::Light(d) => Ok(d.attributes.light_level),
            _ => Err(
                crate::error::HubError::Validation(crate::error::ValidationError::NotApplicable),
            ),
        }
    }

    /// The color temperature, meaningful on lights only.
    pub fn color_temperature(&self) -> (r: Result<Option<u16>, crate::error::HubError>)
        ensures
            self is Light ==> r == Ok::<Option<u16>, crate::error::HubError>(
                self.spec_inner().attributes.color_temperature,
            ),
            !(self is Light) ==> r == Err::<Option<u16>, crate::error::HubError>(
                crate::error::HubError::Validation(crate::error::ValidationError::NotApplicable),
            ),
    {
        match self {
            Device::Light(d) => Ok(d.attributes.color_temperature),
            _ => Err(
                crate::error::HubError::Validation(crate::error::ValidationError::NotApplicable),
            ),
        }
    }

    /// The blinds target level, meaningful on blinds only.
    pub fn blinds_target_level(&self) -> (r: Result<Option<u8>, crate::error::HubError>)
        ensures
            self is Blind ==> r == Ok::<Option<u8>, crate::error::HubError>(
                self.spec_inner().attributes.blinds_target_level,
            ),
            !(self is Blind) ==> r == Err::<Option<u8>, crate::error::HubError>(
                crate::error::HubError::Validation(crate::error::ValidationError::NotApplicable),
            ),
    {
        match self {
            Device::Blind(d) => Ok(d.attributes.blinds_target_level),
            _ => Err(
                crate::error::HubError::Validation(crate::error::ValidationError::NotApplicable),
            ),
        }
    }

    /// The battery percentage, meaningful on controllers only.
    pub fn battery_percentage(&self) -> (r: Result<Option<u8>, crate::error::HubError>)
        ensures
            self is Controller ==> r == Ok::<Option<u8>, crate::error::HubError>(
                self.spec_inner().attributes.battery_percentage,
            ),
            !(self is Controller) ==> r == Err::<Option<u8>, crate::error::HubError>(
                crate::error::HubError::Validation(crate::error::ValidationError::NotApplicable),
            ),
    {
        match self {
            Device::Controller(d) => Ok(d.attributes.battery_percentage),
            _ => Err(
                crate::error::HubError::Validation(crate::error::ValidationError::NotApplicable),
            ),
        }
    }

    /// The open/closed reading, meaningful on sensors only.
    pub fn is_open(&self) -> (r: Result<Option<bool>, crate::error::HubError>)
        ensures
            self is Sensor ==> r == Ok::<Option<bool>, crate::error::HubError>(
                self.spec_inner().attributes.is_open,
            ),
            !(self is Sensor) ==> r == Err::<Option<bool>, crate::error::HubError>(
                crate::error::HubError::Validation(crate::error::ValidationError::NotApplicable),
            ),
    {
        match self {
            Device::Sensor(d) => Ok(d.attributes.is_open),
            _ => Err(
                crate::error::HubError::Validation(crate::error::ValidationError::NotApplicable),
            ),
        }
    }
}

} // verus!
