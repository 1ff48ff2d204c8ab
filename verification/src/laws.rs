//! The facade's laws, stated over the same spec functions its contracts
//! use and proved for all inputs.
use vstd::prelude::*;

use crate::command::Command;
use crate::command::apply_command_spec;
use crate::command::caps_subset;
use crate::command::command_body;
use crate::command::command_error;
use crate::command::spec_bool_text;
use crate::command::spec_required_caps;
use crate::device::Attributes;
use crate::device::DeviceData;
use crate::device::Device;
use crate::error::HubError;
use crate::error::ValidationError;
use crate::request::RequestPlan;
use crate::request::patch_plan;

verus! {

/// A command whose required capabilities are not all present under the
/// device's `canReceive` list is rejected with the capability error before
/// anything else is checked, so no request is ever described for it.
pub proof fn lemma_gate_rejects(c: Command, d: DeviceData)
    requires
        !caps_subset(spec_required_caps(c), d.capabilities.can_receive@),
    ensures
        command_error(c, d) == Some(
            HubError::Validation(ValidationError::MissingCapability),
        ),
{
}

/// When the device lists the required capability, setting a light level is
/// accepted exactly on the levels `0 ..= 100`; everything outside is the
/// range validation error.
pub proof fn lemma_light_level_range(d: DeviceData, v: i8)
    requires
        caps_subset(spec_required_caps(Command::SetLightLevel(v)), d.capabilities.can_receive@),
    ensures
        (command_error(Command::SetLightLevel(v), d) is None) <==> (0 <= v <= 100),
        !(0 <= v <= 100) ==> command_error(Command::SetLightLevel(v), d) == Some(
            HubError::Validation(ValidationError::LightLevelOutOfRange),
        ),
{
}

/// When the device lists both required capabilities, setting hue and
/// saturation is accepted exactly on hues in `0 ..< 360` degrees and
/// saturations in `0 ..= 1`, both carried in thousandths; the hue is
/// examined first.
pub proof fn lemma_hue_saturation_range(d: DeviceData, hue_millis: i64, saturation_millis: i64)
    requires
        caps_subset(
            spec_required_caps(Command::SetHueSaturation { hue_millis, saturation_millis }),
            d.capabilities.can_receive@,
        ),
    ensures
        (command_error(Command::SetHueSaturation { hue_millis, saturation_millis }, d) is None)
            <==> (0 <= hue_millis < 360000 && 0 <= saturation_millis <= 1000),
        !(0 <= hue_millis < 360000) ==> command_error(
            Command::SetHueSaturation { hue_millis, saturation_millis },
            d,
        ) == Some(HubError::Validation(ValidationError::HueOutOfRange)),
        (0 <= hue_millis < 360000 && !(0 <= saturation_millis <= 1000)) ==> command_error(
            Command::SetHueSaturation { hue_millis, saturation_millis },
            d,
        ) == Some(HubError::Validation(ValidationError::SaturationOutOfRange)),
{
}

/// The toggle round trip: the body built for a device carries the negation
/// of its reported power state, and applying the confirmed command flips
/// exactly that one field — same kind, same record, every other attribute
/// untouched.
pub proof fn lemma_toggle_round_trip(dev: Device)
    ensures
        command_body(Command::ToggleOnOff, dev.spec_inner()) == "[{\"attributes\":{\"isOn\":"@
            + spec_bool_text(!dev.spec_inner().attributes.is_on) + "}}]"@,
        apply_command_spec(Command::ToggleOnOff, dev).spec_inner() == (DeviceData {
            attributes: (Attributes {
                is_on: !dev.spec_inner().attributes.is_on,
                ..dev.spec_inner().attributes
            }),
            ..dev.spec_inner()
        }),
        apply_command_spec(Command::ToggleOnOff, dev) is Blind <==> dev is Blind,
        apply_command_spec(Command::ToggleOnOff, dev) is Controller <==> dev is Controller,
        apply_command_spec(Command::ToggleOnOff, dev) is Gateway <==> dev is Gateway,
        apply_command_spec(Command::ToggleOnOff, dev) is Light <==> dev is Light,
        apply_command_spec(Command::ToggleOnOff, dev) is Outlet <==> dev is Outlet,
        apply_command_spec(Command::ToggleOnOff, dev) is Sensor <==> dev is Sensor,
{
}

/// The two operating modes cannot diverge: any two plans that satisfy the
/// mutation description for the same path, token and body are identical in
/// method, path, every header, and every body byte. The integrated facade
/// is the decoupled builder plus a send loop, so this is exactly the
/// guarantee that both modes put the same bytes on the wire.
pub proof fn lemma_modes_agree(
    p1: RequestPlan,
    p2: RequestPlan,
    path: Seq<char>,
    token: Seq<char>,
    body: Seq<char>,
)
    requires
        patch_plan(p1, path, token, body),
        patch_plan(p2, path, token, body),
    ensures
        p1.method == p2.method,
        p1.path@ == p2.path@,
        p1.authorization@ == p2.authorization@,
        p1.user_agent@ == p2.user_agent@,
        p1.body@ == p2.body@,
        match (p1.content_type, p2.content_type) {
            (Some(a), Some(b)) => a@ == b@,
            _ => false,
        },
{
}

} // verus!
