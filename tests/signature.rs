use p384::ecdsa::signature::hazmat::PrehashSigner;
use p384::ecdsa::{SigningKey, VerifyingKey};
use sha2::Digest;
use sev::error::VerificationError;
use sev::report::{AttestationReport, REPORT_SIZE};
use sev::verify::{report_digest, verify, verify_digest};

const MEASUREMENT_OFFSET: usize = 0x90;
const SIG_OFFSET: usize = 0x2a0;

fn signing_key() -> SigningKey {
    let mut secret = [0u8; 48];
    secret[47] = 0x2a;
    secret[0] = 0x11;
    SigningKey::from_slice(&secret).unwrap()
}

fn vek_sec1() -> Vec<u8> {
    let key = VerifyingKey::from(&signing_key());
    key.to_encoded_point(false).as_bytes().to_vec()
}

/// A version 2 report signed the way the firmware signs: the SHA-384 of
/// its first 0x2a0 bytes, with `r` and `s` stored little-endian.
fn signed_report() -> Vec<u8> {
    let mut b: Vec<u8> = (0..REPORT_SIZE).map(|i| (i * 13 + 1) as u8).collect();
    b[0..4].copy_from_slice(&2u32.to_le_bytes());
    for x in b[SIG_OFFSET..].iter_mut() {
        *x = 0;
    }
    let digest = sha2::Sha384::digest(&b[..SIG_OFFSET]);
    let sig: p384::ecdsa::Signature = signing_key().sign_prehash(&digest).unwrap();
    let (r, s) = sig.split_bytes();
    for i in 0..48 {
        b[SIG_OFFSET + i] = r[47 - i];
        b[SIG_OFFSET + 72 + i] = s[47 - i];
    }
    b
}

#[test]
fn digest_is_sha384_of_measurable_bytes() {
    let b = signed_report();
    let report = AttestationReport::from_bytes(&b).unwrap();
    let expected = sha2::Sha384::digest(&b[..SIG_OFFSET]);
    assert_eq!(report_digest(&report).to_vec(), expected.to_vec());
}

#[test]
fn genuine_report_verifies() {
    let report = AttestationReport::from_bytes(&signed_report()).unwrap();
    assert_eq!(verify(&report, &vek_sec1()), Ok(()));
}

#[test]
fn flipped_measurement_bit_fails() {
    let mut b = signed_report();
    b[MEASUREMENT_OFFSET + 5] ^= 0x10;
    let report = AttestationReport::from_bytes(&b).unwrap();
    assert_eq!(verify(&report, &vek_sec1()), Err(VerificationError::SignatureInvalid));
}

#[test]
fn flipped_signature_bit_fails_without_changing_digest() {
    let good = AttestationReport::from_bytes(&signed_report()).unwrap();
    let mut b = signed_report();
    b[SIG_OFFSET + 3] ^= 0x01;
    let report = AttestationReport::from_bytes(&b).unwrap();
    assert_eq!(report_digest(&report), report_digest(&good));
    assert_eq!(verify(&report, &vek_sec1()), Err(VerificationError::SignatureInvalid));
}

#[test]
fn another_key_does_not_verify() {
    let mut secret = [0u8; 48];
    secret[47] = 7;
    let other = VerifyingKey::from(&SigningKey::from_slice(&secret).unwrap());
    let report = AttestationReport::from_bytes(&signed_report()).unwrap();
    let key = other.to_encoded_point(true).as_bytes().to_vec();
    assert_eq!(verify(&report, &key), Err(VerificationError::SignatureInvalid));
}

#[test]
fn zero_scalar_is_a_malformed_signature() {
    let mut b = signed_report();
    for x in b[SIG_OFFSET..SIG_OFFSET + 72].iter_mut() {
        *x = 0;
    }
    let report = AttestationReport::from_bytes(&b).unwrap();
    assert_eq!(verify(&report, &vek_sec1()), Err(VerificationError::MalformedSignature));
}

#[test]
fn scalar_above_group_order_is_a_malformed_signature() {
    let mut b = signed_report();
    for x in b[SIG_OFFSET + 72..SIG_OFFSET + 72 + 48].iter_mut() {
        *x = 0xff;
    }
    let report = AttestationReport::from_bytes(&b).unwrap();
    assert_eq!(verify(&report, &vek_sec1()), Err(VerificationError::MalformedSignature));
}

#[test]
fn garbage_key_is_malformed() {
    let report = AttestationReport::from_bytes(&signed_report()).unwrap();
    assert_eq!(verify(&report, &[4u8, 1, 2, 3]), Err(VerificationError::MalformedKey));
    assert_eq!(verify(&report, &[]), Err(VerificationError::MalformedKey));
}

#[test]
fn bytes_past_the_scalars_do_not_matter() {
    let mut b = signed_report();
    b[SIG_OFFSET + 60] = 0xee;
    b[REPORT_SIZE - 1] = 0xee;
    let report = AttestationReport::from_bytes(&b).unwrap();
    assert_eq!(verify(&report, &vek_sec1()), Ok(()));
}

#[test]
fn verify_digest_takes_the_digest_as_given() {
    let b = signed_report();
    let report = AttestationReport::from_bytes(&b).unwrap();
    let digest = report_digest(&report);
    assert_eq!(verify_digest(report.signature(), &digest, &vek_sec1()), Ok(()));
    let mut other = digest;
    other[0] ^= 1;
    assert_eq!(
        verify_digest(report.signature(), &other, &vek_sec1()),
        Err(VerificationError::SignatureInvalid)
    );
}
