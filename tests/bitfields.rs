use sev::policy::{GuestFieldSelect, GuestPolicy, KeyInfo, PlatformInfo, PlatformInfoV1, PlatformInfoV2};
use sev::error::AttestationReportError;

#[test]
fn abi_major_set_then_get_for_sixty_four_values() {
    let base: u64 = 0xdead_beef_0000_00ff;
    for v in 0u64..64 {
        let mut p = GuestPolicy(base);
        p.set_abi_major(v * 3);
        assert_eq!(p.abi_major(), v * 3);
        assert_eq!(p.0 & !0xff00, base & !0xff00);
    }
}

#[test]
fn abi_minor_drops_bits_above_the_field() {
    let mut p = GuestPolicy(0);
    p.set_abi_minor(0x1ff);
    assert_eq!(p.abi_minor(), 0xff);
    assert_eq!(p.0, 0xff);
}

#[test]
fn single_bit_policy_fields() {
    let mut p = GuestPolicy(0);
    p.set_smt_allowed(1);
    p.set_debug_allowed(1);
    p.set_ciphertext_hiding(1);
    assert_eq!(p.0, (1 << 16) | (1 << 19) | (1 << 24));
    assert_eq!(p.smt_allowed(), 1);
    assert_eq!(p.migrate_ma_allowed(), 0);
    assert_eq!(p.debug_allowed(), 1);
    assert_eq!(p.single_socket_required(), 0);
    assert_eq!(p.ciphertext_hiding(), 1);
    p.set_debug_allowed(0);
    assert_eq!(p.0, (1 << 16) | (1 << 24));
    p.set_cxl_allowed(1);
    p.set_mem_aes_256_xts(1);
    p.set_rapl_dis(1);
    p.set_migrate_ma_allowed(1);
    p.set_single_socket_required(1);
    assert_eq!(p.cxl_allowed(), 1);
    assert_eq!(p.mem_aes_256_xts(), 1);
    assert_eq!(p.rapl_dis(), 1);
    assert_eq!(p.0, 0x01f5_0000);
}

#[test]
fn policy_integer_form_sets_bit_seventeen() {
    assert_eq!(u64::from(GuestPolicy(0)), 0x2_0000);
    assert_eq!(u64::from(GuestPolicy(0x2_0000)), 0x2_0000);
    assert_eq!(u64::from(GuestPolicy(0x30_0f02)), 0x32_0f02);
    assert_eq!(u64::from(GuestPolicy(u64::MAX)), u64::MAX);
}

#[test]
fn platform_info_bits() {
    let v1 = PlatformInfoV1(0b10_1011);
    assert_eq!(v1.smt_enabled(), 1);
    assert_eq!(v1.tsme_enabled(), 1);
    assert_eq!(v1.ecc_enabled(), 0);
    assert_eq!(v1.rapl_disabled(), 1);
    assert_eq!(v1.ciphertext_hiding_enabled(), 0);
    let v2 = PlatformInfoV2(0b10_0100);
    assert_eq!(v2.ecc_enabled(), 1);
    assert_eq!(v2.alias_check_complete(), 1);
    assert_eq!(PlatformInfo::V2(v2).alias_check_complete(), Ok(1));
    assert_eq!(PlatformInfo::V1(v1).tsme_enabled(), 1);
    assert_eq!(PlatformInfo::V2(v2).cypertext_hiding_enabled(), 0);
    assert_eq!(PlatformInfo::V1(PlatformInfoV1(1 << 4)).cypertext_hiding_enabled(), 1);
}

#[test]
fn alias_check_on_first_layout_is_unsupported() {
    let info = PlatformInfo::V1(PlatformInfoV1(u64::MAX));
    assert_eq!(
        info.alias_check_complete(),
        Err(AttestationReportError::UnsupportedField("Alias Check Complete".to_string()))
    );
}

#[test]
fn key_info_fields() {
    let k = KeyInfo(0b1_0111);
    assert!(k.author_key_en());
    assert_eq!(k.mask_chip_key(), 1);
    assert_eq!(k.signing_key(), 0b101);
    let none = KeyInfo(7 << 2);
    assert!(!none.author_key_en());
    assert_eq!(none.mask_chip_key(), 0);
    assert_eq!(none.signing_key(), 7);
    assert_eq!(KeyInfo(0xffff_ffe0).signing_key(), 0);
}

#[test]
fn guest_field_select_bits() {
    let mut g = GuestFieldSelect::default();
    g.set_measurement(1);
    g.set_tcb_version(1);
    assert_eq!(g.0, 0b10_1000);
    assert_eq!(g.get_measurement(), 1);
    assert_eq!(g.get_guest_policy(), 0);
    g.set_guest_policy(1);
    g.set_image_id(1);
    g.set_family_id(1);
    g.set_svn(1);
    assert_eq!(g.0, 0x3f);
    assert_eq!(g.get_image_id(), 1);
    assert_eq!(g.get_family_id(), 1);
    assert_eq!(g.get_svn(), 1);
    assert_eq!(g.get_tcb_version(), 1);
    g.set_measurement(0);
    assert_eq!(g.0, 0x37);
}
