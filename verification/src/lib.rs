//! A single-authority registry of numbered certificates.
//!
//! The registry issues certificates, revokes them, answers validity queries
//! and keeps running totals. Its records live in a `soroban_sdk::Map`.

pub mod certificate;
pub mod host;
pub mod model;
pub mod registry;
pub mod laws;

pub use certificate::{Certificate, CertificateStatus, CertificateView, RegistryError};
pub use model::RegistryState;
pub use host::{HostRecord, RecordMap};
pub use registry::CertificateContract;
