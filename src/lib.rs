//! Decoding, field access and signature checking for SEV-SNP guest
//! attestation reports, with the request and response objects that the
//! guest driver exchanges with the secure processor.

pub mod bits;
pub mod error;
pub mod policy;
pub mod wire;
pub mod report;
pub mod verify;
pub mod request;
pub mod text;
pub mod display;
