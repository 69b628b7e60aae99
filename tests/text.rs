use sev::policy::{GuestPolicy, KeyInfo, PlatformInfoV1, PlatformInfoV2};
use sev::report::{AttestationReport, AttestationReportV2, AttestationReportV3, Signature, TcbVersion};

#[test]
fn policy_text() {
    let mut p = GuestPolicy(0x3_0000);
    p.set_abi_major(12);
    p.set_abi_minor(255);
    assert_eq!(
        p.to_text(),
        "\n    Guest Policy (0x30cff):\n    ABI Major:     12\n    ABI Minor:     255\n    SMT Allowed:   1\n    Migrate MA:    0\n    Debug Allowed: 0\n    Single Socket: 0"
    );
}

#[test]
fn platform_info_text() {
    assert_eq!(
        PlatformInfoV1(1234).to_text(),
        "\nPlatform Info (1234):\n  SMT Enabled:               0\n  TSME Enabled:              1\n  ECC Enabled:               0\n  RAPL Disabled:             0\n  Ciphertext Hiding Enabled: 1\n"
    );
    assert_eq!(
        PlatformInfoV2(0x21).to_text(),
        "\nPlatform Info (33):\n  SMT Enabled:               1\n  TSME Enabled:              0\n  ECC Enabled:               0\n  RAPL Disabled:             0\n  Ciphertext Hiding Enabled: 0\n  Alias Check Complete:      1\n"
    );
}

#[test]
fn key_info_text() {
    assert_eq!(
        KeyInfo(0b101).to_text(),
        "\nKey Information:\n    author key enabled: true\n    mask chip key:      0\n    signing key:        vlek\n"
    );
    assert!(KeyInfo(7 << 2).to_text().ends_with("signing key:        none\n"));
    assert!(KeyInfo(3 << 2).to_text().ends_with("signing key:        unkown\n"));
    assert!(KeyInfo(2).to_text().contains("author key enabled: false\n    mask chip key:      1\n    signing key:        vcek\n"));
}

#[test]
fn tcb_text() {
    assert_eq!(
        TcbVersion::new(3, 0, 20, 209).to_text(),
        "Microcode:   209\nSNP:         20\nTEE:         0\nBoot Loader: 3"
    );
}

#[test]
fn signature_text_dumps_components() {
    let mut s = Signature::default();
    s.r[0] = 0xab;
    s.r[16] = 0x01;
    let text = s.to_text();
    let r_dump = format!(
        "\n{}\n01 {}\n{}\n{}\n{}\n",
        format!("ab {}", "00 ".repeat(15)),
        "00 ".repeat(15),
        "00 ".repeat(16),
        "00 ".repeat(16),
        "00 ".repeat(8)
    );
    assert!(text.starts_with(&format!("\nSignature:\n  R: {}\n  S: ", r_dump)));
    assert_eq!(text.len(), "\nSignature:\n  R: ".len() + r_dump.len() + "\n  S: ".len() + r_dump.len());
}

#[test]
fn report_text_lines() {
    let mut v2 = AttestationReportV2::default();
    v2.version = 2;
    v2.vmpl = 1;
    v2.measurement[0] = 0x5f;
    let text = AttestationReport::V2(v2).to_text();
    assert!(text.starts_with("\nAttestation Report (1184 bytes):\nVersion:                      2\nGuest SVN:                    0\n"));
    assert!(text.contains("\nVMPL:                         1\n"));
    assert!(text.contains("Measurement:                  \n5f 00 00"));
    assert!(!text.contains("CPUID"));
    let mut v3 = AttestationReportV3::default();
    v3.version = 3;
    v3.cpuid_fam_id = 0x19;
    let text = AttestationReport::V3(v3).to_text();
    assert!(text.contains("CPUID Family ID:              25\nCPUID Model ID:               0\n"));
    assert!(text.contains("Alias Check Complete:"));
}
