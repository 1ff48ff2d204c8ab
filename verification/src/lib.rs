//! A typed client core for the IKEA Dirigera hub's local REST API.
//!
//! The crate models devices and scenes, gates mutating commands on the
//! capabilities a device declares, builds transport-agnostic HTTP request
//! descriptions, and interprets raw HTTP responses back into the domain
//! model. It never performs I/O itself: a caller (or a thin facade around
//! this crate) executes the described requests with any HTTP client and
//! feeds the raw responses back.
pub mod command;
pub mod decode;
pub mod device;
pub mod error;
pub mod hub;
pub mod instant;
pub mod json;
pub mod laws;
pub mod request;
pub mod scene;
pub mod text;

pub use device::{Capabilities, Capability, Device, DeviceData, DeviceType};
pub use scene::Scene;
pub use command::{has_capability, Command};
pub use error::{DecodeError, HubError, ValidationError};
pub use hub::Hub;
pub use request::{HttpMethod, RequestPlan, Response};
