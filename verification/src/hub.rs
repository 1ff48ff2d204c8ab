//! The hub facade's verified core.
//!
//! [`Hub`] holds the bearer token and, for every operation, builds the
//! request description and interprets the raw response. It owns no
//! transport: a caller executes each [`RequestPlan`] with any HTTP client
//! and feeds the [`Response`] back. A thin loop around this core — run the
//! plan, hand back the outcome — gives the integrated facade, with the same
//! validation and the same bytes on the wire, because there is only one
//! builder.
//!
//! Each mutation is a short-lived call: validate, build, send, and only on
//! a confirmed success apply the field-level change to the caller's device.
//! [`MutationCall`] makes that protocol explicit; the stateless
//! `*_request` / `*_parse_response` pairs run the same steps for callers
//! that keep no state between the two halves.
use vstd::prelude::*;

use crate::command::Command;
use crate::command::apply_command;
use crate::command::apply_command_spec;
use crate::command::build_command_body;
use crate::command::caps_subset;
use crate::command::command_body;
use crate::command::command_error;
use crate::command::rename_body;
use crate::command::spec_required_caps;
use crate::command::validate_command;
use crate::device::Capability;
use crate::device::Device;
use crate::device::Startup;
use crate::device::decode_device;
use crate::device::decode_devices;
use crate::device::device_ok;
use crate::device::device_rel;
use crate::device::devices_ok;
use crate::device::devices_rel;
use crate::error::DecodeError;
use crate::error::HubError;
use crate::error::ValidationError;
use crate::json::parse_json;
use crate::json::spec_parse_json;
use crate::request::RequestPlan;
use crate::request::Response;
use crate::request::device_path;
use crate::request::make_patch_plan;
use crate::request::make_post_plan;
use crate::request::make_read_plan;
use crate::request::patch_plan;
use crate::request::post_plan;
use crate::request::read_plan;
use crate::request::scene_path;
use crate::request::scene_trigger_path;
use crate::request::scene_undo_path;
use crate::request::status_ok;
use crate::scene::Scene;
use crate::scene::decode_scene;
use crate::scene::decode_scenes;
use crate::scene::scene_ok;
use crate::scene::scene_rel;
use crate::scene::scenes_ok;
use crate::scene::scenes_rel;
use vstd::string::StringExecFns;

verus! {

/// The verified facade core: the configured bearer token.
#[derive(Debug, Clone, PartialEq)]
pub struct Hub {
    pub token: String,
}

/// What the transport reports for one sent request: a delivery with the
/// answer's status code, or a transport-level failure with the transport's
/// own message.
#[derive(Debug, Clone, PartialEq)]
pub enum TransportOutcome {
    Failed(String),
    Delivered(u16),
}

/// Where a mutation call stands: rejected before any I/O, or holding a
/// request that is ready to send.
#[derive(Debug, Clone, Copy, PartialEq, Eq, Structural)]
pub enum CallPhase {
    Rejected,
    Sending,
}

/// One short-lived mutation call. [`MutationCall::start`] validates and
/// either rejects — then no request exists and none will be sent — or
/// builds the one request to send. [`MutationCall::finish`] consumes the
/// call with the transport's outcome and applies the local change only on
/// a confirmed success; in every failing case the device is untouched.
#[derive(Debug, PartialEq)]
pub struct MutationCall {
    pub command: Command,
    pub phase: CallPhase,
    pub plan: Option<RequestPlan>,
    pub error: Option<HubError>,
}

fn device_path_of(id: &str) -> (r: String)
    ensures
        r@ == device_path(id@),
{
    let mut p = String::from_str("/v1/devices/");
    p.append(id);
    p
}

fn scene_path_of(id: &str) -> (r: String)
    ensures
        r@ == scene_path(id@),
{
    let mut p = String::from_str("/v1/scenes/");
    p.append(id);
    p
}

impl Hub {
    /// A facade core for the given bearer token.
    pub fn new(token: String) -> (r: Hub)
        ensures
            r.token == token,
    {
        Hub { token }
    }

    /// The request that lists every device.
    pub fn devices_request(&self) -> (r: RequestPlan)
        ensures
            read_plan(r, "/v1/devices"@, self.token@),
    {
        make_read_plan(String::from_str("/v1/devices"), self.token.as_str())
    }

    /// The request that reads one device.
    pub fn device_request(&self, id: &str) -> (r: RequestPlan)
        ensures
            read_plan(r, device_path(id@), self.token@),
    {
        make_read_plan(device_path_of(id), self.token.as_str())
    }

    /// The request that lists every scene.
    pub fn scenes_request(&self) -> (r: RequestPlan)
        ensures
            read_plan(r, "/v1/scenes"@, self.token@),
    {
        make_read_plan(String::from_str("/v1/scenes"), self.token.as_str())
    }

    /// The request that reads one scene.
    pub fn scene_request(&self, id: &str) -> (r: RequestPlan)
        ensures
            read_plan(r, scene_path(id@), self.token@),
    {
        make_read_plan(scene_path_of(id), self.token.as_str())
    }

    /// The request that triggers a scene now.
    pub fn trigger_scene_request(&self, scene: &Scene) -> (r: RequestPlan)
        ensures
            post_plan(r, scene_trigger_path(scene.spec_inner().id@), self.token@),
    {
        let mut p = scene_path_of(scene.inner().id.as_str());
        p.append("/trigger");
        make_post_plan(p, self.token.as_str())
    }

    /// The request that undoes a scene's changes.
    pub fn undo_scene_request(&self, scene: &Scene) -> (r: RequestPlan)
        ensures
            post_plan(r, scene_undo_path(scene.spec_inner().id@), self.token@),
    {
        let mut p = scene_path_of(scene.inner().id.as_str());
        p.append("/undo");
        make_post_plan(p, self.token.as_str())
    }

    /// Validate a command against a device and, if it passes, build the one
    /// PATCH that would carry it out. On rejection no request exists and
    /// the error says exactly why.
    pub fn mutation_request(&self, device: &Device, command: &Command) -> (r: Result<
        RequestPlan,
        HubError,
    >)
        ensures
            match command_error(*command, device.spec_inner()) {
                None => r matches Ok(p) && patch_plan(
                    p,
                    device_path(device.spec_inner().id@),
                    self.token@,
                    command_body(*command, device.spec_inner()),
                ),
                Some(e) => r == Err::<RequestPlan, HubError>(e),
            },
    {
        let inner = device.inner();
        match validate_command(command, inner) {
            Ok(_) => {
                let body = build_command_body(command, inner);
                Ok(make_patch_plan(device_path_of(inner.id.as_str()), self.token.as_str(), body))
            },
            Err(e) => Err(e),
        }
    }

    /// Toggle power: requires the `IsOn` capability; the body flips the
    /// device's reported state.
    pub fn toggle_on_off_request(&self, device: &Device) -> (r: Result<RequestPlan, HubError>)
        ensures
            match command_error(Command::ToggleOnOff, device.spec_inner()) {
                None => r matches Ok(p) && patch_plan(
                    p,
                    device_path(device.spec_inner().id@),
                    self.token@,
                    command_body(Command::ToggleOnOff, device.spec_inner()),
                ),
                Some(e) => r == Err::<RequestPlan, HubError>(e),
            },
    {
        self.mutation_request(device, &Command::ToggleOnOff)
    }

    /// Set the light level: requires the `LightLevel` capability and a
    /// level in `0 ..= 100`.
    pub fn set_light_level_request(&self, device: &Device, level: i8) -> (r: Result<
        RequestPlan,
        HubError,
    >)
        ensures
            match command_error(Command::SetLightLevel(level), device.spec_inner()) {
                None => r matches Ok(p) && patch_plan(
                    p,
                    device_path(device.spec_inner().id@),
                    self.token@,
                    command_body(Command::SetLightLevel(level), device.spec_inner()),
                ),
                Some(e) => r == Err::<RequestPlan, HubError>(e),
            },
    {
        self.mutation_request(device, &Command::SetLightLevel(level))
    }

    /// Set the color temperature: requires the `ColorTemperature`
    /// capability and a value between the device-reported bounds; a device
    /// without both bounds is itself an error.
    pub fn set_temperature_request(&self, device: &Device, temperature: u16) -> (r: Result<
        RequestPlan,
        HubError,
    >)
        ensures
            match command_error(Command::SetTemperature(temperature), device.spec_inner()) {
                None => r matches Ok(p) && patch_plan(
                    p,
                    device_path(device.spec_inner().id@),
                    self.token@,
                    command_body(Command::SetTemperature(temperature), device.spec_inner()),
                ),
                Some(e) => r == Err::<RequestPlan, HubError>(e),
            },
    {
        self.mutation_request(device, &Command::SetTemperature(temperature))
    }

    /// Set hue and saturation, both in thousandths: requires the
    /// `ColorHue` and `ColorSaturation` capabilities, a hue in
    /// `0 ..< 360000` and a saturation in `0 ..= 1000`.
    pub fn set_hue_saturation_request(
        &self,
        device: &Device,
        hue_millis: i64,
        saturation_millis: i64,
    ) -> (r: Result<RequestPlan, HubError>)
        ensures
            match command_error(
                Command::SetHueSaturation { hue_millis, saturation_millis },
                device.spec_inner(),
            ) {
                None => r matches Ok(p) && patch_plan(
                    p,
                    device_path(device.spec_inner().id@),
                    self.token@,
                    command_body(
                        Command::SetHueSaturation { hue_millis, saturation_millis },
                        device.spec_inner(),
                    ),
                ),
                Some(e) => r == Err::<RequestPlan, HubError>(e),
            },
    {
        self.mutation_request(device, &Command::SetHueSaturation { hue_millis, saturation_millis })
    }

    /// Set the startup behaviour; no capability is required.
    pub fn set_startup_behaviour_request(&self, device: &Device, behaviour: Startup) -> (r: Result<
        RequestPlan,
        HubError,
    >)
        ensures
            match command_error(Command::SetStartupBehaviour(behaviour), device.spec_inner()) {
                None => r matches Ok(p) && patch_plan(
                    p,
                    device_path(device.spec_inner().id@),
                    self.token@,
                    command_body(Command::SetStartupBehaviour(behaviour), device.spec_inner()),
                ),
                Some(e) => r == Err::<RequestPlan, HubError>(e),
            },
    {
        self.mutation_request(device, &Command::SetStartupBehaviour(behaviour))
    }

    /// Set the blinds target level: requires the `BlindsState` capability
    /// and a level in `0 ..= 100`.
    pub fn set_target_level_request(&self, device: &Device, level: u8) -> (r: Result<
        RequestPlan,
        HubError,
    >)
        ensures
            match command_error(Command::SetTargetLevel(level), device.spec_inner()) {
                None => r matches Ok(p) && patch_plan(
                    p,
                    device_path(device.spec_inner().id@),
                    self.token@,
                    command_body(Command::SetTargetLevel(level), device.spec_inner()),
                ),
                Some(e) => r == Err::<RequestPlan, HubError>(e),
            },
    {
        self.mutation_request(device, &Command::SetTargetLevel(level))
    }

    /// Rename the device: requires the `CustomName` capability; the body
    /// carries the new name with JSON escaping applied.
    pub fn rename_request(&self, device: &Device, new_name: &str) -> (r: Result<
        RequestPlan,
        HubError,
    >)
        ensures
            if caps_subset(
                seq![Capability::CustomName],
                device.spec_inner().capabilities.can_receive@,
            ) {
                r matches Ok(p) && patch_plan(
                    p,
                    device_path(device.spec_inner().id@),
                    self.token@,
                    rename_body(new_name@),
                )
            } else {
                r == Err::<RequestPlan, HubError>(
                    HubError::Validation(ValidationError::MissingCapability),
                )
            },
    {
        let command = Command::Rename(String::from_str(new_name));
        proof {
            assert(spec_required_caps(command) =~= seq![Capability::CustomName]);
        }
        self.mutation_request(device, &command)
    }

    /// Interpret the answer to [`Hub::devices_request`].
    pub fn devices_parse_response(response: &Response) -> (r: Result<Vec<Device>, HubError>)
        ensures
            !status_ok(response.status) ==> r == Err::<Vec<Device>, HubError>(
                HubError::Protocol(response.status),
            ),
            status_ok(response.status) ==> match spec_parse_json(response.body@) {
                None => r == Err::<Vec<Device>, HubError>(HubError::Decode(DecodeError::Syntax)),
                Some(j) => if devices_ok(j) {
                    r matches Ok(ds) && devices_rel(ds@, j)
                } else {
                    r matches Err(e) && e matches HubError::Decode(_)
                },
            },
    {
        if !(200 <= response.status && response.status < 300) {
            return Err(HubError::Protocol(response.status));
        }
        match parse_json(response.body.as_str()) {
            Ok(v) => match decode_devices(&v) {
                Ok(ds) => Ok(ds),
                Err(e) => Err(HubError::Decode(e)),
            },
            Err(e) => Err(HubError::Decode(e)),
        }
    }

    /// Interpret the answer to [`Hub::device_request`].
    pub fn device_parse_response(response: &Response) -> (r: Result<Device, HubError>)
        ensures
            !status_ok(response.status) ==> r == Err::<Device, HubError>(
                HubError::Protocol(response.status),
            ),
            status_ok(response.status) ==> match spec_parse_json(response.body@) {
                None => r == Err::<Device, HubError>(HubError::Decode(DecodeError::Syntax)),
                Some(j) => if device_ok(j) {
                    r matches Ok(d) && device_rel(d, j)
                } else {
                    r matches Err(e) && e matches HubError::Decode(_)
                },
            },
    {
        if !(200 <= response.status && response.status < 300) {
            return Err(HubError::Protocol(response.status));
        }
        match parse_json(response.body.as_str()) {
            Ok(v) => match decode_device(&v) {
                Ok(d) => Ok(d),
                Err(e) => Err(HubError::Decode(e)),
            },
            Err(e) => Err(HubError::Decode(e)),
        }
    }

    /// Interpret a fresh read of a device already held locally: on success
    /// every field of the local copy is replaced by the fresh record,
    /// whether or not any command touched it; on any failure the local copy
    /// is untouched.
    pub fn device_reload_parse_response(device: &mut Device, response: &Response) -> (r: Result<
        (),
        HubError,
    >)
        ensures
            match r {
                Ok(_) => status_ok(response.status) && (match spec_parse_json(response.body@) {
                    Some(j) => device_ok(j) && device_rel(*final(device), j),
                    None => false,
                }),
                Err(e) => *final(device) == *old(device),
            },
            !status_ok(response.status) ==> r == Err::<(), HubError>(
                HubError::Protocol(response.status),
            ),
            status_ok(response.status) ==> match spec_parse_json(response.body@) {
                None => r == Err::<(), HubError>(HubError::Decode(DecodeError::Syntax)),
                Some(j) => if device_ok(j) {
                    r is Ok
                } else {
                    r matches Err(e) && e matches HubError::Decode(_)
                },
            },
    {
        match Self::device_parse_response(response) {
            Ok(fresh) => {
                *device = fresh;
                Ok(())
            },
            Err(e) => Err(e),
        }
    }

    /// Interpret the answer to [`Hub::scenes_request`].
    pub fn scenes_parse_response(response: &Response) -> (r: Result<Vec<Scene>, HubError>)
        ensures
            !status_ok(response.status) ==> r == Err::<Vec<Scene>, HubError>(
                HubError::Protocol(response.status),
            ),
            status_ok(response.status) ==> match spec_parse_json(response.body@) {
                None => r == Err::<Vec<Scene>, HubError>(HubError::Decode(DecodeError::Syntax)),
                Some(j) => if scenes_ok(j) {
                    r matches Ok(ss) && scenes_rel(ss@, j)
                } else {
                    r matches Err(e) && e matches HubError::Decode(_)
                },
            },
    {
        if !(200 <= response.status && response.status < 300) {
            return Err(HubError::Protocol(response.status));
        }
        match parse_json(response.body.as_str()) {
            Ok(v) => match decode_scenes(&v) {
                Ok(ss) => Ok(ss),
                Err(e) => Err(HubError::Decode(e)),
            },
            Err(e) => Err(HubError::Decode(e)),
        }
    }

    /// Interpret the answer to [`Hub::scene_request`].
    pub fn scene_parse_response(response: &Response) -> (r: Result<Scene, HubError>)
        ensures
            !status_ok(response.status) ==> r == Err::<Scene, HubError>(
                HubError::Protocol(response.status),
            ),
            status_ok(response.status) ==> match spec_parse_json(response.body@) {
                None => r == Err::<Scene, HubError>(HubError::Decode(DecodeError::Syntax)),
                Some(j) => if scene_ok(j) {
                    r matches Ok(sc) && scene_rel(sc, j)
                } else {
                    r matches Err(e) && e matches HubError::Decode(_)
                },
            },
    {
        if !(200 <= response.status && response.status < 300) {
            return Err(HubError::Protocol(response.status));
        }
        match parse_json(response.body.as_str()) {
            Ok(v) => match decode_scene(&v) {
                Ok(sc) => Ok(sc),
                Err(e) => Err(HubError::Decode(e)),
            },
            Err(e) => Err(HubError::Decode(e)),
        }
    }

    /// Interpret the answer to a scene trigger: success is the status
    /// alone, no body is read.
    pub fn trigger_scene_parse_response(response: &Response) -> (r: Result<(), HubError>)
        ensures
            r is Ok <==> status_ok(response.status),
            !status_ok(response.status) ==> r == Err::<(), HubError>(
                HubError::Protocol(response.status),
            ),
    {
        if 200 <= response.status && response.status < 300 {
            Ok(())
        } else {
            Err(HubError::Protocol(response.status))
        }
    }

    /// Interpret the answer to a scene undo: success is the status alone,
    /// no body is read.
    pub fn undo_scene_parse_response(response: &Response) -> (r: Result<(), HubError>)
        ensures
            r is Ok <==> status_ok(response.status),
            !status_ok(response.status) ==> r == Err::<(), HubError>(
                HubError::Protocol(response.status),
            ),
    {
        if 200 <= response.status && response.status < 300 {
            Ok(())
        } else {
            Err(HubError::Protocol(response.status))
        }
    }

    /// Interpret the answer to a mutation and, only on a confirmed 2xx,
    /// apply the command's field-level change to the local device. The same
    /// validation runs again first, so a caller that skipped the build step
    /// cannot slip an invalid command through.
    pub fn mutation_parse_response(
        device: &mut Device,
        command: Command,
        response: &Response,
    ) -> (r: Result<(), HubError>)
        ensures
            match command_error(command, old(device).spec_inner()) {
                Some(e) => r == Err::<(), HubError>(e) && *final(device) == *old(device),
                None => if status_ok(response.status) {
                    r is Ok && *final(device) == apply_command_spec(command, *old(device))
                } else {
                    r == Err::<(), HubError>(HubError::Protocol(response.status)) && *final(device)
                        == *old(device)
                },
            },
    {
        match validate_command(&command, device.inner()) {
            Ok(_) => {
                if 200 <= response.status && response.status < 300 {
                    apply_command(device, command);
                    Ok(())
                } else {
                    Err(HubError::Protocol(response.status))
                }
            },
            Err(e) => Err(e),
        }
    }

    /// The paired interpreter of [`Hub::toggle_on_off_request`].
    pub fn toggle_on_off_parse_response(device: &mut Device, response: &Response) -> (r: Result<
        (),
        HubError,
    >)
        ensures
            match command_error(Command::ToggleOnOff, old(device).spec_inner()) {
                Some(e) => r == Err::<(), HubError>(e) && *final(device) == *old(device),
                None => if status_ok(response.status) {
                    r is Ok && *final(device) == apply_command_spec(
                        Command::ToggleOnOff,
                        *old(device),
                    )
                } else {
                    r == Err::<(), HubError>(HubError::Protocol(response.status)) && *final(device)
                        == *old(device)
                },
            },
    {
        Self::mutation_parse_response(device, Command::ToggleOnOff, response)
    }

    /// The paired interpreter of [`Hub::set_light_level_request`].
    pub fn set_light_level_parse_response(
        device: &mut Device,
        level: i8,
        response: &Response,
    ) -> (r: Result<(), HubError>)
        ensures
            match command_error(Command::SetLightLevel(level), old(device).spec_inner()) {
                Some(e) => r == Err::<(), HubError>(e) && *final(device) == *old(device),
                None => if status_ok(response.status) {
                    r is Ok && *final(device) == apply_command_spec(
                        Command::SetLightLevel(level),
                        *old(device),
                    )
                } else {
                    r == Err::<(), HubError>(HubError::Protocol(response.status)) && *final(device)
                        == *old(device)
                },
            },
    {
        Self::mutation_parse_response(device, Command::SetLightLevel(level), response)
    }

    /// The paired interpreter of [`Hub::set_temperature_request`].
    pub fn set_temperature_parse_response(
        device: &mut Device,
        temperature: u16,
        response: &Response,
    ) -> (r: Result<(), HubError>)
        ensures
            match command_error(Command::SetTemperature(temperature), old(device).spec_inner()) {
                Some(e) => r == Err::<(), HubError>(e) && *final(device) == *old(device),
                None => if status_ok(response.status) {
                    r is Ok && *final(device) == apply_command_spec(
                        Command::SetTemperature(temperature),
                        *old(device),
                    )
                } else {
                    r == Err::<(), HubError>(HubError::Protocol(response.status)) && *final(device)
                        == *old(device)
                },
            },
    {
        Self::mutation_parse_response(device, Command::SetTemperature(temperature), response)
    }

    /// The paired interpreter of [`Hub::set_hue_saturation_request`].
    pub fn set_hue_saturation_parse_response(
        device: &mut Device,
        hue_millis: i64,
        saturation_millis: i64,
        response: &Response,
    ) -> (r: Result<(), HubError>)
        ensures
            match command_error(
                Command::SetHueSaturation { hue_millis, saturation_millis },
                old(device).spec_inner(),
            ) {
                Some(e) => r == Err::<(), HubError>(e) && *final(device) == *old(device),
                None => if status_ok(response.status) {
                    r is Ok && *final(device) == apply_command_spec(
                        Command::SetHueSaturation { hue_millis, saturation_millis },
                        *old(device),
                    )
                } else {
                    r == Err::<(), HubError>(HubError::Protocol(response.status)) && *final(device)
                        == *old(device)
                },
            },
    {
        Self::mutation_parse_response(
            device,
            Command::SetHueSaturation { hue_millis, saturation_millis },
            response,
        )
    }

    /// The paired interpreter of [`Hub::set_startup_behaviour_request`].
    pub fn set_startup_behaviour_parse_response(
        device: &mut Device,
        behaviour: Startup,
        response: &Response,
    ) -> (r: Result<(), HubError>)
        ensures
            match command_error(
                Command::SetStartupBehaviour(behaviour),
                old(device).spec_inner(),
            ) {
                Some(e) => r == Err::<(), HubError>(e) && *final(device) == *old(device),
                None => if status_ok(response.status) {
                    r is Ok && *final(device) == apply_command_spec(
                        Command::SetStartupBehaviour(behaviour),
                        *old(device),
                    )
                } else {
                    r == Err::<(), HubError>(HubError::Protocol(response.status)) && *final(device)
                        == *old(device)
                },
            },
    {
        Self::mutation_parse_response(device, Command::SetStartupBehaviour(behaviour), response)
    }

    /// The paired interpreter of [`Hub::set_target_level_request`].
    pub fn set_target_level_parse_response(
        device: &mut Device,
        level: u8,
        response: &Response,
    ) -> (r: Result<(), HubError>)
        ensures
            match command_error(Command::SetTargetLevel(level), old(device).spec_inner()) {
                Some(e) => r == Err::<(), HubError>(e) && *final(device) == *old(device),
                None => if status_ok(response.status) {
                    r is Ok && *final(device) == apply_command_spec(
                        Command::SetTargetLevel(level),
                        *old(device),
                    )
                } else {
                    r == Err::<(), HubError>(HubError::Protocol(response.status)) && *final(device)
                        == *old(device)
                },
            },
    {
        Self::mutation_parse_response(device, Command::SetTargetLevel(level), response)
    }

    /// The paired interpreter of [`Hub::rename_request`]: on a confirmed
    /// success the local name is exactly the requested text and nothing
    /// else changes.
    pub fn rename_parse_response(
        device: &mut Device,
        new_name: &str,
        response: &Response,
    ) -> (r: Result<(), HubError>)
        ensures
            if caps_subset(
                seq![Capability::CustomName],
                old(device).spec_inner().capabilities.can_receive@,
            ) {
                if status_ok(response.status) {
                    r is Ok && final(device).spec_inner().attributes.custom_name@ == new_name@
                        && *final(device) == apply_command_spec(
                        Command::Rename(final(device).spec_inner().attributes.custom_name),
                        *old(device),
                    )
                } else {
                    r == Err::<(), HubError>(HubError::Protocol(response.status)) && *final(device)
                        == *old(device)
                }
            } else {
                r == Err::<(), HubError>(
                    HubError::Validation(ValidationError::MissingCapability),
                ) && *final(device) == *old(device)
            },
    {
        let command = Command::Rename(String::from_str(new_name));
        proof {
            assert(spec_required_caps(command) =~= seq![Capability::CustomName]);
        }
        Self::mutation_parse_response(device, command, response)
    }
}

impl MutationCall {
    /// Open a mutation call: run the capability gate and the range checks,
    /// and either hold the rejection — no request exists — or hold the one
    /// request that carries the command.
    pub fn start(hub: &Hub, device: &Device, command: Command) -> (r: MutationCall)
        ensures
            r.command == command,
            match command_error(command, device.spec_inner()) {
                Some(e) => r.phase == CallPhase::Rejected && r.plan is None && r.error == Some(e),
                None => r.phase == CallPhase::Sending && (r.plan matches Some(p) && patch_plan(
                    p,
                    device_path(device.spec_inner().id@),
                    hub.token@,
                    command_body(command, device.spec_inner()),
                )) && r.error is None,
            },
    {
        match hub.mutation_request(device, &command) {
            Ok(p) => MutationCall {
                command,
                phase: CallPhase::Sending,
                plan: Some(p),
                error: None,
            },
            Err(e) => MutationCall {
                command,
                phase: CallPhase::Rejected,
                plan: None,
                error: Some(e),
            },
        }
    }

    /// Close a mutation call with the transport's outcome. Only a
    /// delivered 2xx answer applies the command's field-level change; a
    /// transport failure or a non-success status leaves the device exactly
    /// as it was.
    pub fn finish(self, outcome: TransportOutcome, device: &mut Device) -> (r: Result<
        (),
        HubError,
    >)
        requires
            self.phase == CallPhase::Sending,
            command_error(self.command, old(device).spec_inner()) is None,
        ensures
            match outcome {
                TransportOutcome::Failed(msg) => r == Err::<(), HubError>(
                    HubError::Transport(msg),
                ) && *final(device) == *old(device),
                TransportOutcome::Delivered(status) => if status_ok(status) {
                    r is Ok && *final(device) == apply_command_spec(self.command, *old(device))
                } else {
                    r == Err::<(), HubError>(HubError::Protocol(status)) && *final(device)
                        == *old(device)
                },
            },
    {
        match outcome {
            TransportOutcome::Failed(msg) => Err(HubError::Transport(msg)),
            TransportOutcome::Delivered(status) => {
                if 200 <= status && status < 300 {
                    apply_command(device, self.command);
                    Ok(())
                } else {
                    Err(HubError::Protocol(status))
                }
            },
        }
    }
}

} // verus!
