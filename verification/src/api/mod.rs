//! The HTTP-facing rules of the client: how server answers become errors,
//! how RFC 7807 problem bodies are read, how list requests are encoded, and
//! how rate limiting is honoured.

pub mod errors;
pub mod models;
pub mod params;
pub mod problem;
pub mod transport;
