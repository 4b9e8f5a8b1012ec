//! Types, parsers and the mock-server state for the VATSIM network APIs
//! (data feed, slurper and Connect), with their behaviour stated and proved.

pub mod client;
pub mod error;
pub mod mock;
pub mod number;
pub mod text;
pub mod types;

pub use client::{CachePolicy, ClientConfig};
pub use error::ParseError;
pub use types::CertificateId;
