//! Checking a report's signature against the platform's endorsement key.
//!
//! The firmware signs the SHA-384 digest of the report's measurable bytes
//! with ECDSA over P-384. The key arrives as a SEC1-encoded point that the
//! caller has already validated up to its root of trust.
use vstd::prelude::*;
use p384::ecdsa::signature::hazmat::PrehashVerifier;
use crate::error::VerificationError;
use crate::report::{decoded_as, measurable, AttestationReport, Signature, MEASURABLE_SIZE};

verus! {

/// The SHA-384 digest of `data`.
pub uninterp spec fn sha384_of(data: Seq<u8>) -> Seq<u8>;

/// Whether `sec1` decodes to a public key on P-384.
pub uninterp spec fn p384_key_valid(sec1: Seq<u8>) -> bool;

/// Whether ECDSA verification on P-384 accepts the signature with
/// big-endian scalars `r` and `s` over the prehashed `digest`, under the
/// key whose SEC1 encoding is `sec1`.
pub uninterp spec fn p384_accepts(sec1: Seq<u8>, digest: Seq<u8>, r: Seq<u8>, s: Seq<u8>) -> bool;

/// The number whose big-endian bytes are `s`.
pub open spec fn be_value(s: Seq<u8>) -> nat
    decreases s.len(),
{
    if s.len() == 0 {
        0
    } else {
        be_value(s.drop_last()) * 256 + s.last() as nat
    }
}

/// The order of the P-384 group, as 48 big-endian bytes.
pub open spec fn p384_order_bytes() -> Seq<u8> {
    seq![
        0xffu8, 0xff, 0xff, 0xff, 0xff, 0xff, 0xff, 0xff,
        0xff, 0xff, 0xff, 0xff, 0xff, 0xff, 0xff, 0xff,
        0xff, 0xff, 0xff, 0xff, 0xff, 0xff, 0xff, 0xff,
        0xc7, 0x63, 0x4d, 0x81, 0xf4, 0x37, 0x2d, 0xdf,
        0x58, 0x1a, 0x0d, 0xb2, 0x48, 0xb0, 0xa7, 0x7a,
        0xec, 0xec, 0x19, 0x6a, 0xcc, 0xc5, 0x29, 0x73,
    ]
}

/// The order of the P-384 group.
pub open spec fn p384_order() -> nat {
    be_value(p384_order_bytes())
}

/// Whether `s` is a valid signature scalar: 48 big-endian bytes of a number
/// in `1..n`, `n` the group order.
pub open spec fn p384_scalar_ok(s: Seq<u8>) -> bool {
    s.len() == 48 && 0 < be_value(s) && be_value(s) < p384_order()
}

/// The big-endian scalar of a signature component stored as 72
/// little-endian bytes: its first 48 bytes, reversed.
pub open spec fn scalar_be(component: Seq<u8>) -> Seq<u8> {
    component.subrange(0, 48).reverse()
}

/// The outcome of a signature whose scalars are out of range.
pub open spec fn malformed_signature() -> Result<(), VerificationError> {
    Err(VerificationError::MalformedSignature)
}

/// The outcome of a key that is not a point of the curve.
pub open spec fn malformed_key() -> Result<(), VerificationError> {
    Err(VerificationError::MalformedKey)
}

/// The outcome of the signature check proper, given whether it accepted.
pub open spec fn check_result(accepted: bool) -> Result<(), VerificationError> {
    if accepted {
        Ok(())
    } else {
        Err(VerificationError::SignatureInvalid)
    }
}

/// The outcome of an ECDSA P-384 check: the signature's scalars are
/// parsed first, then the key, then the signature is checked.
pub open spec fn ecdsa_outcome(sec1: Seq<u8>, digest: Seq<u8>, r: Seq<u8>, s: Seq<u8>) -> Result<
    (),
    VerificationError,
> {
    if !(p384_scalar_ok(r) && p384_scalar_ok(s)) {
        Err(VerificationError::MalformedSignature)
    } else if !p384_key_valid(sec1) {
        Err(VerificationError::MalformedKey)
    } else {
        check_result(p384_accepts(sec1, digest, r, s))
    }
}

/// The outcome of checking `sig` over `digest` under the key `sec1`.
pub open spec fn signature_outcome(sec1: Seq<u8>, digest: Seq<u8>, sig: Signature) -> Result<
    (),
    VerificationError,
> {
    ecdsa_outcome(sec1, digest, scalar_be(sig.r@), scalar_be(sig.s@))
}

/// Relies on sha2's `Sha384` through `Digest::digest`: the 48-byte SHA-384
/// digest of `data`.
#[verifier::external_body]
fn sha384(data: &[u8]) -> (r: [u8; 48])
    ensures
        r@ == sha384_of(data@),
{
    <sha2::Sha384 as sha2::Digest>::digest(data).into()
}

/// Relies on p384's ECDSA: `Signature::from_scalars`, which fails unless
/// both scalars lie in `1..n`; `VerifyingKey::from_sec1_bytes`, which fails
/// on bytes that are not a SEC1 point of the curve; and
/// `PrehashVerifier::verify_prehash`, which checks the signature over a
/// digest.
#[verifier::external_body]
fn p384_verify_prehash(sec1: &[u8], digest: &[u8; 48], r: [u8; 48], s: [u8; 48]) -> (res: Result<(), VerificationError>)
    ensures
        !(p384_scalar_ok(r@) && p384_scalar_ok(s@)) ==> res == malformed_signature(),
        p384_scalar_ok(r@) && p384_scalar_ok(s@) && !p384_key_valid(sec1@) ==> res == malformed_key(),
        p384_scalar_ok(r@) && p384_scalar_ok(s@) && p384_key_valid(sec1@) ==> res == check_result(p384_accepts(sec1@, digest@, r@, s@)),
{
    let sig = p384::ecdsa::Signature::from_scalars(r, s).map_err(
        |_| VerificationError::MalformedSignature,
    )?;
    let key = p384::ecdsa::VerifyingKey::from_sec1_bytes(sec1).map_err(
        |_| VerificationError::MalformedKey,
    )?;
    key.verify_prehash(digest, &sig).map_err(|_| VerificationError::SignatureInvalid)
}

/// The big-endian scalar of a component stored little-endian.
fn scalar_from_component(c: &[u8; 72]) -> (r: [u8; 48])
    ensures
        r@ == scalar_be(c@),
{
    let mut a: [u8; 48] = [0u8; 48];
    let mut i: usize = 0;
    while i < 48
        invariant
            i <= 48,
            a@.len() == 48,
            c@.len() == 72,
            forall|j: int| 0 <= j < i ==> a@[j] == c@[47 - j],
        decreases 48 - i,
    {
        a[i] = c[47 - i];
        i = i + 1;
    }
    proof {
        assert(a@ =~= scalar_be(c@));
    }
    a
}

/// The SHA-384 digest of the report's measurable bytes.
pub fn report_digest(report: &AttestationReport) -> (d: [u8; 48])
    ensures
        d@ == sha384_of(measurable(*report)),
{
    let bytes = report.measurable_bytes();
    sha384(bytes.as_slice())
}

/// Checks `signature` over a report digest under the endorsement key
/// whose SEC1 encoding is `vek_sec1`.
pub fn verify_digest(signature: &Signature, digest: &[u8; 48], vek_sec1: &[u8]) -> (res: Result<
    (),
    VerificationError,
>)
    ensures
        res == signature_outcome(vek_sec1@, digest@, *signature),
{
    let r = scalar_from_component(&signature.r);
    let s = scalar_from_component(&signature.s);
    p384_verify_prehash(vek_sec1, digest, r, s)
}

/// Checks that the report was signed by the endorsement key whose SEC1
/// encoding is `vek_sec1`: the digest of the measurable bytes is checked
/// against the signature carried at the report's end.
pub fn verify(report: &AttestationReport, vek_sec1: &[u8]) -> (res: Result<(), VerificationError>)
    ensures
        res == signature_outcome(
            vek_sec1@,
            sha384_of(measurable(*report)),
            match *report {
                AttestationReport::V2(x) => x.signature,
                AttestationReport::V3(x) => x.signature,
            },
        ),
{
    let digest = report_digest(report);
    verify_digest(report.signature(), &digest, vek_sec1)
}

/// Bytes past the measurable region do not reach the digest: two buffers
/// that agree on their first `MEASURABLE_SIZE` bytes decode to reports
/// with the same measurable bytes, and so the same digest.
pub proof fn lemma_digest_ignores_signature(
    b1: Seq<u8>,
    b2: Seq<u8>,
    r1: AttestationReport,
    r2: AttestationReport,
)
    requires
        decoded_as(b1, Ok(r1)),
        decoded_as(b2, Ok(r2)),
        b1.subrange(0, MEASURABLE_SIZE as int) == b2.subrange(0, MEASURABLE_SIZE as int),
    ensures
        measurable(r1) == measurable(r2),
        sha384_of(measurable(r1)) == sha384_of(measurable(r2)),
{
    assert(measurable(r1) =~= b1.subrange(0, MEASURABLE_SIZE as int));
    assert(measurable(r2) =~= b2.subrange(0, MEASURABLE_SIZE as int));
}

} // verus!
