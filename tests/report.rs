use sev::error::AttestationReportError;
use sev::policy::{GuestPolicy, PlatformInfo};
use sev::report::{
    AttestationReport, AttestationReportV2, AttestationReportV3, TcbVersion, MEASURABLE_SIZE,
    REPORT_SIZE,
};

/// A buffer whose every byte differs from its neighbours, with the
/// version word set.
fn patterned(version: u32) -> Vec<u8> {
    let mut b: Vec<u8> = (0..REPORT_SIZE).map(|i| (i * 7 + 3) as u8).collect();
    b[0..4].copy_from_slice(&version.to_le_bytes());
    b
}

#[test]
fn sizes() {
    assert_eq!(REPORT_SIZE, 1184);
    assert_eq!(MEASURABLE_SIZE, 0x2a0);
}

#[test]
fn version_two_decodes_to_v2_and_round_trips() {
    let b = patterned(2);
    let r = AttestationReport::from_bytes(&b).unwrap();
    assert!(matches!(r, AttestationReport::V2(_)));
    assert_eq!(r.version(), 2);
    assert_eq!(r.to_bytes(), b);
}

#[test]
fn version_three_decodes_to_v3_and_round_trips() {
    let b = patterned(3);
    let r = AttestationReport::from_bytes(&b).unwrap();
    assert!(matches!(r, AttestationReport::V3(_)));
    assert_eq!(r.version(), 3);
    assert_eq!(r.to_bytes(), b);
}

#[test]
fn trailing_bytes_are_ignored() {
    let mut b = patterned(3);
    let prefix = b.clone();
    b.extend_from_slice(&[0xaa; 100]);
    let r = AttestationReport::from_bytes(&b).unwrap();
    assert_eq!(r.to_bytes(), prefix);
}

#[test]
fn other_versions_are_unsupported() {
    for v in [0u32, 1, 4, 0xffff_ffff] {
        let b = patterned(v);
        assert_eq!(
            AttestationReport::from_bytes(&b),
            Err(AttestationReportError::UnsupportedReportVersion(v))
        );
    }
}

#[test]
fn short_buffers_are_truncated() {
    let b = patterned(2);
    assert_eq!(
        AttestationReport::from_bytes(&b[..REPORT_SIZE - 1]),
        Err(AttestationReportError::Truncated { expected: REPORT_SIZE, actual: REPORT_SIZE - 1 })
    );
    assert_eq!(
        AttestationReport::from_bytes(&b[..3]),
        Err(AttestationReportError::Truncated { expected: 4, actual: 3 })
    );
    assert_eq!(
        AttestationReportV3::from_bytes(&b[..100]),
        Err(AttestationReportError::Truncated { expected: REPORT_SIZE, actual: 100 })
    );
}

#[test]
fn fields_sit_at_their_offsets() {
    let mut b = vec![0u8; REPORT_SIZE];
    b[0] = 3;
    b[4..8].copy_from_slice(&9u32.to_le_bytes());
    b[8..16].copy_from_slice(&0x3_0000u64.to_le_bytes());
    b[0x10] = 0x11;
    b[0x20] = 0x22;
    b[0x30..0x34].copy_from_slice(&2u32.to_le_bytes());
    b[0x34..0x38].copy_from_slice(&1u32.to_le_bytes());
    b[0x38..0x40].copy_from_slice(&[1, 2, 0, 0, 0, 0, 3, 4]);
    b[0x40..0x48].copy_from_slice(&0x21u64.to_le_bytes());
    b[0x48..0x4c].copy_from_slice(&0b101u32.to_le_bytes());
    b[0x50] = 0x50;
    b[0x90] = 0x90;
    b[0xc0] = 0xc0;
    b[0xe0] = 0xe0;
    b[0x110] = 0x11;
    b[0x140] = 0x40;
    b[0x160] = 0x60;
    b[0x180..0x188].copy_from_slice(&[5, 6, 0, 0, 0, 0, 7, 8]);
    b[0x188] = 0x19;
    b[0x189] = 0x01;
    b[0x18a] = 0x02;
    b[0x1a0] = 0xa0;
    b[0x1e0..0x1e8].copy_from_slice(&[9, 10, 0, 0, 0, 0, 11, 12]);
    b[0x1e8..0x1ec].copy_from_slice(&[1, 2, 3, 0]);
    b[0x1ec..0x1f0].copy_from_slice(&[4, 5, 6, 0]);
    b[0x1f0..0x1f8].copy_from_slice(&[13, 14, 0, 0, 0, 0, 15, 16]);
    b[0x2a0] = 0x77;
    b[0x2a0 + 72] = 0x88;
    let r = AttestationReport::from_bytes(&b).unwrap();
    assert_eq!(r.guest_svn(), 9);
    assert_eq!(r.policy(), GuestPolicy(0x3_0000));
    assert_eq!(r.policy().smt_allowed(), 1);
    assert_eq!(r.family_id()[0], 0x11);
    assert_eq!(r.image_id()[0], 0x22);
    assert_eq!(r.vmpl(), 2);
    assert_eq!(r.sig_algo(), 1);
    assert_eq!(r.current_tcb(), TcbVersion::new(1, 2, 3, 4));
    match r.plat_info() {
        PlatformInfo::V2(p) => {
            assert_eq!(p.smt_enabled(), 1);
            assert_eq!(p.alias_check_complete(), 1);
        }
        PlatformInfo::V1(_) => panic!("a version 3 report carries the second layout"),
    }
    assert!(r.key_info().author_key_en());
    assert_eq!(r.key_info().signing_key(), 1);
    assert_eq!(r.report_data()[0], 0x50);
    assert_eq!(r.measurement()[0], 0x90);
    assert_eq!(r.host_data()[0], 0xc0);
    assert_eq!(r.id_key_digest()[0], 0xe0);
    assert_eq!(r.author_key_digest()[0], 0x11);
    assert_eq!(r.report_id()[0], 0x40);
    assert_eq!(r.report_id_ma()[0], 0x60);
    assert_eq!(r.reported_tcb(), TcbVersion::new(5, 6, 7, 8));
    assert_eq!(r.cpuid(), Ok((0x19, 0x01, 0x02)));
    assert_eq!(r.chip_id()[0], 0xa0);
    assert_eq!(r.commited_tcb(), TcbVersion::new(9, 10, 11, 12));
    assert_eq!(r.current_version(), (3, 2, 1));
    assert_eq!(r.commited_version(), (6, 5, 4));
    assert_eq!(r.launch_tcb(), TcbVersion::new(13, 14, 15, 16));
    assert_eq!(r.signature().r()[0], 0x77);
    assert_eq!(r.signature().s()[0], 0x88);
}

#[test]
fn cpuid_of_a_version_two_report_is_unsupported() {
    let mut v2 = AttestationReportV2::default();
    v2.version = 2;
    v2.reserved_1[0] = 0x19;
    let r = AttestationReport::V2(v2);
    assert_eq!(
        r.cpuid(),
        Err(AttestationReportError::UnsupportedField("cpuid information".to_string()))
    );
    assert!(matches!(r.plat_info(), PlatformInfo::V1(_)));
    assert!(r.plat_info().alias_check_complete().is_err());
}

#[test]
fn measurable_bytes_are_the_signed_prefix() {
    for v in [2u32, 3] {
        let b = patterned(v);
        let r = AttestationReport::from_bytes(&b).unwrap();
        let m = r.measurable_bytes();
        assert_eq!(m.len(), 0x2a0);
        assert_eq!(m, b[..0x2a0].to_vec());
    }
}

#[test]
fn default_reports_encode_as_zeros() {
    assert_eq!(AttestationReportV2::default().to_bytes(), vec![0u8; REPORT_SIZE]);
    assert_eq!(AttestationReportV3::default().to_bytes(), vec![0u8; REPORT_SIZE]);
}

#[test]
fn encode_then_decode_gives_the_report() {
    let mut v3 = AttestationReportV3::default();
    v3.version = 3;
    v3.guest_svn = 4;
    v3.cpuid_fam_id = 0x19;
    v3.measurement = [0x5a; 48];
    v3.signature.r[0] = 1;
    let r = AttestationReport::V3(v3);
    assert_eq!(AttestationReport::from_bytes(&r.to_bytes()), Ok(r));
}

#[test]
fn try_from_agrees_with_from_bytes() {
    let b = patterned(3);
    let r = AttestationReport::try_from(&b[..]).unwrap();
    assert_eq!(Ok(r), AttestationReport::from_bytes(&b));
    assert_eq!(
        AttestationReport::try_from(&patterned(5)[..]),
        Err(AttestationReportError::UnsupportedReportVersion(5))
    );
}
