//! Error values of the library.
use vstd::prelude::*;

verus! {

/// Why a report could not be decoded, or a field could not be read.
#[derive(Debug, Clone, PartialEq, Eq)]
pub enum AttestationReportError {
    /// The version word at the start of the report names no known layout.
    UnsupportedReportVersion(u32),
    /// The report's version has no such field.
    UnsupportedField(String),
    /// Fewer bytes were given than the layout occupies.
    Truncated { expected: usize, actual: usize },
}

/// Why a request object could not be built.
#[derive(Debug, Clone, Copy, PartialEq, Eq)]
pub enum UserApiError {
    /// The requested VMPL is above the highest level the platform has.
    VmplError,
}

/// Why a report's signature was not accepted.
#[derive(Debug, Clone, Copy, PartialEq, Eq)]
pub enum VerificationError {
    /// The signature's `r` or `s` is not a scalar of the curve.
    MalformedSignature,
    /// The endorsement key is not a SEC1-encoded point of the curve.
    MalformedKey,
    /// The signature does not match the report under the key.
    SignatureInvalid,
}

} // verus!
