//! The error kinds a call can end in. Validation errors never cause I/O;
//! transport errors come from the caller's transport; protocol errors carry
//! the non-success HTTP status; decode errors mean the response body did not
//! match the expected shape.
use vstd::prelude::*;

verus! {

/// A request was refused before any I/O: the capability gate failed or a
/// numeric parameter is out of its declared range.
#[derive(Debug, Clone, Copy, PartialEq, Eq, Structural)]
pub enum ValidationError {
    /// The device does not list every required capability under `canReceive`.
    MissingCapability,
    /// A light level outside `0 ..= 100`.
    LightLevelOutOfRange,
    /// A hue outside `0 ..< 360` degrees.
    HueOutOfRange,
    /// A saturation outside `0 ..= 1`.
    SaturationOutOfRange,
    /// A color temperature outside the device-reported bounds.
    TemperatureOutOfRange,
    /// The device reports no color-temperature bounds at all.
    MissingTemperatureRange,
    /// A blinds target level outside `0 ..= 100`.
    TargetLevelOutOfRange,
    /// The attribute read through a typed accessor does not apply to the
    /// device's kind.
    NotApplicable,
}

/// A response body that did not decode.
#[derive(Debug, Clone, Copy, PartialEq, Eq, Structural)]
pub enum DecodeError {
    /// The body is not well-formed JSON text.
    Syntax,
    /// The JSON shape does not match the expected record.
    Shape,
    /// A required timestamp field is malformed.
    Timestamp,
}

/// Everything a call can fail with. Exactly one of the four kinds is
/// reported, and the call's entity is untouched in every failing case.
#[derive(Debug, Clone, PartialEq)]
pub enum HubError {
    /// Rejected before any I/O.
    Validation(ValidationError),
    /// The transport failed to deliver the request; the message is the
    /// transport's own.
    Transport(String),
    /// The hub answered with a non-success HTTP status.
    Protocol(u16),
    /// The hub's answer did not decode.
    Decode(DecodeError),
}

} // verus!
