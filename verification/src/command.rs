//! Mutating commands: the capability gate, parameter validation, the exact
//! PATCH body each command sends, and the field-level change a confirmed
//! command applies to the local device.
use vstd::prelude::*;

use crate::device::Attributes;
use crate::device::Capability;
use crate::device::Device;
use crate::device::DeviceData;
use crate::device::Startup;
use crate::device::startup_name;
use crate::device::startup_wire_name;
use crate::error::HubError;
use crate::error::ValidationError;
use crate::text::dec_chars;
use crate::text::dec_digit;
use crate::text::escape_chars;
use crate::text::push_char;
use crate::text::push_dec_u64;
use crate::text::push_escaped;
use vstd::string::StringExecFns;

verus! {

/// One mutating intent aimed at a device. Hue is carried in thousandths of
/// a degree and saturation in thousandths of the unit interval.
#[derive(Debug, Clone, PartialEq)]
pub enum Command {
    ToggleOnOff,
    SetLightLevel(i8),
    SetTemperature(u16),
    SetHueSaturation { hue_millis: i64, saturation_millis: i64 },
    SetStartupBehaviour(Startup),
    SetTargetLevel(u8),
    Rename(String),
}

/// The capabilities a command requires under `canReceive` before any
/// request is built.
pub open spec fn spec_required_caps(c: Command) -> Seq<Capability> {
    match c {
        Command::ToggleOnOff => seq![Capability::IsOn],
        Command::SetLightLevel(_) => seq![Capability::LightLevel],
        Command::SetTemperature(_) => seq![Capability::ColorTemperature],
        Command::SetHueSaturation { .. } => seq![Capability::ColorHue, Capability::ColorSaturation],
        Command::SetStartupBehaviour(_) => Seq::empty(),
        Command::SetTargetLevel(_) => seq![Capability::BlindsState],
        Command::Rename(_) => seq![Capability::CustomName],
    }
}

/// The required-capability set of a command.
pub fn required_capabilities(c: &Command) -> (r: Vec<Capability>)
    ensures
        r@ == spec_required_caps(*c),
{
    match c {
        Command::ToggleOnOff => vec![Capability::IsOn],
        Command::SetLightLevel(_) => vec![Capability::LightLevel],
        Command::SetTemperature(_) => vec![Capability::ColorTemperature],
        Command::SetHueSaturation { .. } => vec![
            Capability::ColorHue,
            Capability::ColorSaturation,
        ],
        Command::SetStartupBehaviour(_) => Vec::new(),
        Command::SetTargetLevel(_) => vec![Capability::BlindsState],
        Command::Rename(_) => vec![Capability::CustomName],
    }
}

/// Order-independent containment: every required capability occurs in
/// `got`.
pub open spec fn caps_subset(required: Seq<Capability>, got: Seq<Capability>) -> bool {
    forall|i: int| 0 <= i < required.len() ==> got.contains(required[i])
}

/// The capability gate: true iff every capability in `required` is present
/// in `got`, in any order.
pub fn has_capability(got: &[Capability], required: &[Capability]) -> (r: bool)
    ensures
        r == caps_subset(required@, got@),
{
    let nr = required.len();
    let ng = got.len();
    let mut i: usize = 0;
    while i < nr
        invariant
            nr == required@.len(),
            ng == got@.len(),
            i <= nr,
            forall|q: int| 0 <= q < i ==> got@.contains(required@[q]),
        decreases nr - i,
    {
        let mut found = false;
        let mut j: usize = 0;
        while j < ng
            invariant
                nr == required@.len(),
                ng == got@.len(),
                i < nr,
                j <= ng,
                found ==> got@.contains(required@[i as int]),
                !found ==> forall|q: int| 0 <= q < j ==> got@[q] != required@[i as int],
            decreases ng - j,
        {
            if got[j] == required[i] {
                found = true;
            }
            j = j + 1;
        }
        if !found {
            proof {
                assert(!got@.contains(required@[i as int]));
            }
            return false;
        }
        i = i + 1;
    }
    true
}

/// Both orders of the device-reported pair count as bounds: the value must
/// lie between them, inclusive.
pub open spec fn temp_between(t: u16, a: u16, b: u16) -> bool {
    (a <= t <= b) || (b <= t <= a)
}

/// The validation verdict for a command against a device: the capability
/// gate first, then the command's own parameter checks. `None` means the
/// command may be built and sent.
pub open spec fn command_error(c: Command, d: DeviceData) -> Option<HubError> {
    if !caps_subset(spec_required_caps(c), d.capabilities.can_receive@) {
        Some(HubError::Validation(ValidationError::MissingCapability))
    } else {
        match c {
            Command::SetLightLevel(v) => if v < 0 || v > 100 {
                Some(HubError::Validation(ValidationError::LightLevelOutOfRange))
            } else {
                None
            },
            Command::SetTemperature(t) => match d.attributes.color_temperature_min {
                Some(mn) => match d.attributes.color_temperature_max {
                    Some(mx) => if temp_between(t, mn, mx) {
                        None
                    } else {
                        Some(HubError::Validation(ValidationError::TemperatureOutOfRange))
                    },
                    None => Some(HubError::Validation(ValidationError::MissingTemperatureRange)),
                },
                None => Some(HubError::Validation(ValidationError::MissingTemperatureRange)),
            },
            Command::SetHueSaturation { hue_millis, saturation_millis } => if hue_millis < 0
                || hue_millis >= 360000 {
                Some(HubError::Validation(ValidationError::HueOutOfRange))
            } else if saturation_millis < 0 || saturation_millis > 1000 {
                Some(HubError::Validation(ValidationError::SaturationOutOfRange))
            } else {
                None
            },
            Command::SetTargetLevel(l) => if l > 100 {
                Some(HubError::Validation(ValidationError::TargetLevelOutOfRange))
            } else {
                None
            },
            _ => None,
        }
    }
}

/// Run the capability gate and the range checks; the outcome agrees with
/// [`command_error`] exactly.
pub fn validate_command(c: &Command, d: &DeviceData) -> (r: Result<(), HubError>)
    ensures
        match r {
            Ok(_) => command_error(*c, *d) is None,
            Err(e) => command_error(*c, *d) == Some(e),
        },
{
    let required = required_capabilities(c);
    if !has_capability(d.capabilities.can_receive.as_slice(), required.as_slice()) {
        return Err(HubError::Validation(ValidationError::MissingCapability));
    }
    match c {
        Command::SetLightLevel(v) => {
            if *v < 0 || *v > 100 {
                return Err(HubError::Validation(ValidationError::LightLevelOutOfRange));
            }
        },
        Command::SetTemperature(t) => {
            match d.attributes.color_temperature_min {
                Some(mn) => match d.attributes.color_temperature_max {
                    Some(mx) => {
                        if !((mn <= *t && *t <= mx) || (mx <= *t && *t <= mn)) {
                            return Err(
                                HubError::Validation(ValidationError::TemperatureOutOfRange),
                            );
                        }
                    },
                    None => {
                        return Err(
                            HubError::Validation(ValidationError::MissingTemperatureRange),
                        );
                    },
                },
                None => {
                    return Err(HubError::Validation(ValidationError::MissingTemperatureRange));
                },
            }
        },
        Command::SetHueSaturation { hue_millis, saturation_millis } => {
            if *hue_millis < 0 || *hue_millis >= 360000 {
                return Err(HubError::Validation(ValidationError::HueOutOfRange));
            }
            if *saturation_millis < 0 || *saturation_millis > 1000 {
                return Err(HubError::Validation(ValidationError::SaturationOutOfRange));
            }
        },
        Command::SetTargetLevel(l) => {
            if *l > 100 {
                return Err(HubError::Validation(ValidationError::TargetLevelOutOfRange));
            }
        },
        _ => {},
    }
    Ok(())
}

/// The text of a boolean in a JSON body.
pub open spec fn spec_bool_text(b: bool) -> Seq<char> {
    if b {
        "true"@
    } else {
        "false"@
    }
}

/// A non-negative fixed-point value in thousandths, written with exactly
/// three fraction digits.
pub open spec fn fixed3(m: int) -> Seq<char> {
    dec_chars(m / 1000) + seq![
        '.',
        dec_digit(m % 1000 / 100),
        dec_digit(m % 1000 / 10 % 10),
        dec_digit(m % 10),
    ]
}

fn push_fixed3(out: &mut String, m: i64)
    requires
        0 <= m,
    ensures
        final(out)@ == old(out)@ + fixed3(m as int),
{
    push_dec_u64(out, (m / 1000) as u64);
    push_char(out, '.');
    let frac = (m % 1000) as u16;
    push_char(out, crate::text::digit_char((frac / 100) as u8));
    push_char(out, crate::text::digit_char((frac / 10 % 10) as u8));
    push_char(out, crate::text::digit_char((frac % 10) as u8));
    proof {
        assert((m % 1000) as int % 10 == (m as int) % 10);
        assert(out@ =~= old(out)@ + fixed3(m as int));
    }
}

/// The exact body of a rename, as a function of the new name's text.
pub open spec fn rename_body(name: Seq<char>) -> Seq<char> {
    "[{\"attributes\":{\"customName\":\""@ + escape_chars(name) + "\"}}]"@
}

/// The exact PATCH body a command sends: a one-element array holding one
/// object with a single `attributes` object inside.
pub open spec fn command_body(c: Command, d: DeviceData) -> Seq<char> {
    match c {
        Command::ToggleOnOff => "[{\"attributes\":{\"isOn\":"@ + spec_bool_text(
            !d.attributes.is_on,
        ) + "}}]"@,
        Command::SetLightLevel(v) => "[{\"attributes\":{\"lightLevel\":"@ + dec_chars(v as int)
            + "}}]"@,
        Command::SetTemperature(t) => "[{\"attributes\":{\"colorTemperature\":"@ + dec_chars(
            t as int,
        ) + "}}]"@,
        Command::SetHueSaturation { hue_millis, saturation_millis } => {
            "[{\"attributes\":{\"colorHue\":"@ + fixed3(hue_millis as int)
                + ",\"colorSaturation\":"@ + fixed3(saturation_millis as int) + "}}]"@
        },
        Command::SetStartupBehaviour(st) => "[{\"attributes\":{\"startupOnOff\":\""@
            + startup_wire_name(st) + "\"}}]"@,
        Command::SetTargetLevel(l) => "[{\"attributes\":{\"blindsTargetLevel\":"@ + dec_chars(
            l as int,
        ) + "}}]"@,
        Command::Rename(name) => rename_body(name@),
    }
}

/// Write the command's PATCH body.
pub fn build_command_body(c: &Command, d: &DeviceData) -> (r: String)
    requires
        command_error(*c, *d) is None,
    ensures
        r@ == command_body(*c, *d),
{
    match c {
        Command::ToggleOnOff => {
            let mut out = String::from_str("[{\"attributes\":{\"isOn\":");
            if d.attributes.is_on {
                out.append("false");
            } else {
                out.append("true");
            }
            out.append("}}]");
            proof {
                assert(out@ =~= command_body(*c, *d));
            }
            out
        },
        Command::SetLightLevel(v) => {
            let mut out = String::from_str("[{\"attributes\":{\"lightLevel\":");
            push_dec_u64(&mut out, *v as u64);
            out.append("}}]");
            proof {
                assert(out@ =~= command_body(*c, *d));
            }
            out
        },
        Command::SetTemperature(t) => {
            let mut out = String::from_str("[{\"attributes\":{\"colorTemperature\":");
            push_dec_u64(&mut out, *t as u64);
            out.append("}}]");
            proof {
                assert(out@ =~= command_body(*c, *d));
            }
            out
        },
        Command::SetHueSaturation { hue_millis, saturation_millis } => {
            let mut out = String::from_str("[{\"attributes\":{\"colorHue\":");
            push_fixed3(&mut out, *hue_millis);
            out.append(",\"colorSaturation\":");
            push_fixed3(&mut out, *saturation_millis);
            out.append("}}]");
            proof {
                assert(out@ =~= command_body(*c, *d));
            }
            out
        },
        Command::SetStartupBehaviour(st) => {
            let mut out = String::from_str("[{\"attributes\":{\"startupOnOff\":\"");
            out.append(startup_name(st));
            out.append("\"}}]");
            proof {
                assert(out@ =~= command_body(*c, *d));
            }
            out
        },
        Command::SetTargetLevel(l) => {
            let mut out = String::from_str("[{\"attributes\":{\"blindsTargetLevel\":");
            push_dec_u64(&mut out, *l as u64);
            out.append("}}]");
            proof {
                assert(out@ =~= command_body(*c, *d));
            }
            out
        },
        Command::Rename(name) => {
            let mut out = String::from_str("[{\"attributes\":{\"customName\":\"");
            push_escaped(&mut out, name.as_str());
            out.append("\"}}]");
            proof {
                assert(out@ =~= command_body(*c, *d));
            }
            out
        },
    }
}

/// The field-level change a confirmed command applies to the attributes
/// record: exactly the targeted fields, nothing else.
pub open spec fn apply_attributes(c: Command, a: Attributes) -> Attributes {
    match c {
        Command::ToggleOnOff => Attributes { is_on: !a.is_on, ..a },
        Command::SetLightLevel(v) => Attributes { light_level: Some(v as u8), ..a },
        Command::SetTemperature(t) => Attributes { color_temperature: Some(t), ..a },
        Command::SetHueSaturation { hue_millis, saturation_millis } => Attributes {
            color_hue_millis: Some(hue_millis),
            color_saturation_millis: Some(saturation_millis),
            ..a
        },
        Command::SetStartupBehaviour(st) => Attributes { startup_on_off: Some(st), ..a },
        Command::SetTargetLevel(l) => Attributes { blinds_target_level: Some(l), ..a },
        Command::Rename(name) => Attributes { custom_name: name, ..a },
    }
}

/// The same device, with its shared record replaced.
pub open spec fn with_inner(dev: Device, d: DeviceData) -> Device {
    match dev {
        Device::Blind(_) => Device::Blind(d),
        Device::Controller(_) => Device::Controller(d),
        Device::Gateway(_) => Device::Gateway(d),
        Device::Light(_) => Device::Light(d),
        Device::Outlet(_) => Device::Outlet(d),
        Device::Sensor(_) => Device::Sensor(d),
    }
}

/// How a confirmed command changes the device: same kind, same record, only
/// the targeted attribute fields updated.
pub open spec fn apply_command_spec(c: Command, dev: Device) -> Device {
    with_inner(
        dev,
        DeviceData {
            attributes: apply_attributes(c, dev.spec_inner().attributes),
            ..dev.spec_inner()
        },
    )
}

fn apply_attrs(a: &mut Attributes, c: Command)
    requires
        match c {
            Command::SetLightLevel(v) => 0 <= v,
            _ => true,
        },
    ensures
        *final(a) == apply_attributes(c, *old(a)),
{
    match c {
        Command::ToggleOnOff => {
            a.is_on = !a.is_on;
        },
        Command::SetLightLevel(v) => {
            a.light_level = Some(v as u8);
        },
        Command::SetTemperature(t) => {
            a.color_temperature = Some(t);
        },
        Command::SetHueSaturation { hue_millis, saturation_millis } => {
            a.color_hue_millis = Some(hue_millis);
            a.color_saturation_millis = Some(saturation_millis);
        },
        Command::SetStartupBehaviour(st) => {
            a.startup_on_off = Some(st);
        },
        Command::SetTargetLevel(l) => {
            a.blinds_target_level = Some(l);
        },
        Command::Rename(name) => {
            a.custom_name = name;
        },
    }
}

/// Apply a confirmed command's field-level change to the local device.
pub fn apply_command(device: &mut Device, c: Command)
    requires
        command_error(c, old(device).spec_inner()) is None,
    ensures
        *final(device) == apply_command_spec(c, *old(device)),
{
    match device {
        Device::Blind(data) => apply_attrs(&mut data.attributes, c),
        Device::Controller(data) => apply_attrs(&mut data.attributes, c),
        Device::Gateway(data) => apply_attrs(&mut data.attributes, c),
        Device::Light(data) => apply_attrs(&mut data.attributes, c),
        Device::Outlet(data) => apply_attrs(&mut data.attributes, c),
        Device::Sensor(data) => apply_attrs(&mut data.attributes, c),
    }
}

} // verus!
