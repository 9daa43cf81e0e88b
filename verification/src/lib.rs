//! Key computation, locations and request outcomes of an S3-backed Debian
//! repository client.
pub mod client;
pub mod digest;
pub mod error;
pub mod laws;
pub mod location;
pub mod path;
pub mod region;
pub mod writer;
