//! A typed client library for the Bitvavo exchange's REST API: request paths,
//! request signing, response classification and decoding into domain records.
pub mod auth;
pub mod endpoint;
pub mod json;
pub mod response;
pub mod text;
pub mod types;
pub mod wire;

pub use auth::{BadSecret, Credentials, Request};
pub use json::{CodecError, FromJson, Json};
pub use response::Error;
