//! Controller-side runtime for home and IoT devices: the device model, the
//! privacy policy that gates every request, request building, discovery
//! bookkeeping and the supervision of event receivers.
pub mod controller;
pub mod device;
pub mod device_data;
pub mod discovery;
pub mod ds18b20;
pub mod error;
pub mod hazards;
pub mod index_map;
pub mod named;
pub mod parameters;
pub mod payloads;
pub mod policy;
pub mod request;
pub mod route;
pub mod text;
