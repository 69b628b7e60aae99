//! The bit-field values carried in a report and in key requests.
use vstd::prelude::*;
use crate::bits::{
    bit32, bit64, bits32, bits64, get_bit32, get_bits32, get_bits64, set_bits64, sets_bits64,
};
use crate::error::AttestationReportError;

verus! {

/// The policy a guest owner bound to the guest at launch.
///
/// | Bits  | Field                                  |
/// |-------|----------------------------------------|
/// | 7:0   | minimum ABI minor version              |
/// | 15:8  | minimum ABI major version              |
/// | 16    | SMT allowed                            |
/// | 17    | reserved, must be one                  |
/// | 18    | migration agent allowed                |
/// | 19    | debugging allowed                      |
/// | 20    | single socket required                 |
/// | 21    | CXL allowed                            |
/// | 22    | AES-256-XTS memory encryption required |
/// | 23    | RAPL disabled                          |
/// | 24    | ciphertext hiding required             |
/// | 63:25 | reserved, must be zero                 |
#[derive(Debug, Clone, Copy, Default, PartialEq, Eq, Structural)]
pub struct GuestPolicy(pub u64);

/// Bit 17 of a policy word, which the firmware requires to be set.
pub const POLICY_RESERVED_ONE: u64 = 0x2_0000;

/// The integer form of a policy: its word with the reserved bit 17 set.
pub open spec fn policy_word(p: GuestPolicy) -> u64 {
    p.0 | POLICY_RESERVED_ONE
}

impl GuestPolicy {
    /// The minimum ABI minor version.
    pub fn abi_minor(&self) -> (r: u64)
        ensures
            r == bits64(self.0, 0, 7),
    {
        get_bits64(self.0, 0, 7)
    }

    /// Sets the minimum ABI minor version.
    pub fn set_abi_minor(&mut self, value: u64)
        ensures
            sets_bits64(old(self).0, final(self).0, 0, 7, value),
    {
        self.0 = set_bits64(self.0, 0, 7, value);
    }

    /// The minimum ABI major version.
    pub fn abi_major(&self) -> (r: u64)
        ensures
            r == bits64(self.0, 8, 15),
    {
        get_bits64(self.0, 8, 15)
    }

    /// Sets the minimum ABI major version.
    pub fn set_abi_major(&mut self, value: u64)
        ensures
            sets_bits64(old(self).0, final(self).0, 8, 15, value),
    {
        self.0 = set_bits64(self.0, 8, 15, value);
    }

    /// Reads whether the host may use SMT.
    pub fn smt_allowed(&self) -> (r: u64)
        ensures
            r == bits64(self.0, 16, 16),
    {
        get_bits64(self.0, 16, 16)
    }

    /// Sets whether the host may use SMT.
    pub fn set_smt_allowed(&mut self, value: u64)
        ensures
            sets_bits64(old(self).0, final(self).0, 16, 16, value),
    {
        self.0 = set_bits64(self.0, 16, 16, value);
    }

    /// Reads whether a migration agent may be associated.
    pub fn migrate_ma_allowed(&self) -> (r: u64)
        ensures
            r == bits64(self.0, 18, 18),
    {
        get_bits64(self.0, 18, 18)
    }

    /// Sets whether a migration agent may be associated.
    pub fn set_migrate_ma_allowed(&mut self, value: u64)
        ensures
            sets_bits64(old(self).0, final(self).0, 18, 18, value),
    {
        self.0 = set_bits64(self.0, 18, 18, value);
    }

    /// Reads whether debugging is allowed.
    pub fn debug_allowed(&self) -> (r: u64)
        ensures
            r == bits64(self.0, 19, 19),
    {
        get_bits64(self.0, 19, 19)
    }

    /// Sets whether debugging is allowed.
    pub fn set_debug_allowed(&mut self, value: u64)
        ensures
            sets_bits64(old(self).0, final(self).0, 19, 19, value),
    {
        self.0 = set_bits64(self.0, 19, 19, value);
    }

    /// Reads whether the guest is bound to one socket.
    pub fn single_socket_required(&self) -> (r: u64)
        ensures
            r == bits64(self.0, 20, 20),
    {
        get_bits64(self.0, 20, 20)
    }

    /// Sets whether the guest is bound to one socket.
    pub fn set_single_socket_required(&mut self, value: u64)
        ensures
            sets_bits64(old(self).0, final(self).0, 20, 20, value),
    {
        self.0 = set_bits64(self.0, 20, 20, value);
    }

    /// Reads whether CXL may be populated.
    pub fn cxl_allowed(&self) -> (r: u64)
        ensures
            r == bits64(self.0, 21, 21),
    {
        get_bits64(self.0, 21, 21)
    }

    /// Sets whether CXL may be populated.
    pub fn set_cxl_allowed(&mut self, value: u64)
        ensures
            sets_bits64(old(self).0, final(self).0, 21, 21, value),
    {
        self.0 = set_bits64(self.0, 21, 21, value);
    }

    /// Reads whether AES-256-XTS memory encryption is required.
    pub fn mem_aes_256_xts(&self) -> (r: u64)
        ensures
            r == bits64(self.0, 22, 22),
    {
        get_bits64(self.0, 22, 22)
    }

    /// Sets whether AES-256-XTS memory encryption is required.
    pub fn set_mem_aes_256_xts(&mut self, value: u64)
        ensures
            sets_bits64(old(self).0, final(self).0, 22, 22, value),
    {
        self.0 = set_bits64(self.0, 22, 22, value);
    }

    /// Reads whether RAPL must be disabled.
    pub fn rapl_dis(&self) -> (r: u64)
        ensures
            r == bits64(self.0, 23, 23),
    {
        get_bits64(self.0, 23, 23)
    }

    /// Sets whether RAPL must be disabled.
    pub fn set_rapl_dis(&mut self, value: u64)
        ensures
            sets_bits64(old(self).0, final(self).0, 23, 23, value),
    {
        self.0 = set_bits64(self.0, 23, 23, value);
    }

    /// Reads whether ciphertext hiding must be enabled.
    pub fn ciphertext_hiding(&self) -> (r: u64)
        ensures
            r == bits64(self.0, 24, 24),
    {
        get_bits64(self.0, 24, 24)
    }

    /// Sets whether ciphertext hiding must be enabled.
    pub fn set_ciphertext_hiding(&mut self, value: u64)
        ensures
            sets_bits64(old(self).0, final(self).0, 24, 24, value),
    {
        self.0 = set_bits64(self.0, 24, 24, value);
    }

}

impl From<GuestPolicy> for u64 {
    fn from(value: GuestPolicy) -> u64 {
        value.0 | POLICY_RESERVED_ONE
    }
}

impl vstd::std_specs::convert::FromSpecImpl<GuestPolicy> for u64 {
    open spec fn obeys_from_spec() -> bool {
        true
    }

    open spec fn from_spec(v: GuestPolicy) -> u64 {
        policy_word(v)
    }
}

/// The integer form of any policy has bit 17 set, and agrees with the
/// stored word on every other bit.
pub proof fn lemma_policy_word_reserved_bit(p: GuestPolicy)
    ensures
        bit64(policy_word(p), 17),
        forall|i: u64| i < 64 && i != 17 ==> bit64(policy_word(p), i) == bit64(p.0, i),
{
    let x = p.0;
    assert(((x | 0x2_0000u64) >> 17u64) & 1 == 1) by (bit_vector);
    assert forall|i: u64| i < 64 && i != 17 implies bit64(policy_word(p), i) == bit64(p.0, i) by {
        assert((((x | 0x2_0000u64) >> i) & 1 == 1) == ((x >> i) & 1 == 1)) by (bit_vector)
            requires
                i < 64 && i != 17,
        ;
    }
}


/// Platform state at the time the report was made, as laid out in
/// version 1 of the field: bit 0 SMT enabled, 1 TSME enabled, 2 ECC memory
/// in use, 3 RAPL disabled, 4 ciphertext hiding enabled; bits 63:5 reserved.
#[derive(Debug, Clone, Copy, Default, PartialEq, Eq, Structural)]
pub struct PlatformInfoV1(pub u64);

impl PlatformInfoV1 {
    /// Whether SMT is enabled.
    pub fn smt_enabled(&self) -> (r: u64)
        ensures
            r == bits64(self.0, 0, 0),
    {
        get_bits64(self.0, 0, 0)
    }

    /// Whether TSME is enabled.
    pub fn tsme_enabled(&self) -> (r: u64)
        ensures
            r == bits64(self.0, 1, 1),
    {
        get_bits64(self.0, 1, 1)
    }

    /// Whether the platform uses ECC memory.
    pub fn ecc_enabled(&self) -> (r: u64)
        ensures
            r == bits64(self.0, 2, 2),
    {
        get_bits64(self.0, 2, 2)
    }

    /// Whether RAPL is disabled.
    pub fn rapl_disabled(&self) -> (r: u64)
        ensures
            r == bits64(self.0, 3, 3),
    {
        get_bits64(self.0, 3, 3)
    }

    /// Whether ciphertext hiding is enabled.
    pub fn ciphertext_hiding_enabled(&self) -> (r: u64)
        ensures
            r == bits64(self.0, 4, 4),
    {
        get_bits64(self.0, 4, 4)
    }
}


/// Platform state at the time the report was made, as laid out in
/// version 2 of the field: bit 0 SMT enabled, 1 TSME enabled, 2 ECC memory
/// in use, 3 RAPL disabled, 4 ciphertext hiding enabled, 5 alias check complete; bits 63:6 reserved.
#[derive(Debug, Clone, Copy, Default, PartialEq, Eq, Structural)]
pub struct PlatformInfoV2(pub u64);

impl PlatformInfoV2 {
    /// Whether SMT is enabled.
    pub fn smt_enabled(&self) -> (r: u64)
        ensures
            r == bits64(self.0, 0, 0),
    {
        get_bits64(self.0, 0, 0)
    }

    /// Whether TSME is enabled.
    pub fn tsme_enabled(&self) -> (r: u64)
        ensures
            r == bits64(self.0, 1, 1),
    {
        get_bits64(self.0, 1, 1)
    }

    /// Whether the platform uses ECC memory.
    pub fn ecc_enabled(&self) -> (r: u64)
        ensures
            r == bits64(self.0, 2, 2),
    {
        get_bits64(self.0, 2, 2)
    }

    /// Whether RAPL is disabled.
    pub fn rapl_disabled(&self) -> (r: u64)
        ensures
            r == bits64(self.0, 3, 3),
    {
        get_bits64(self.0, 3, 3)
    }

    /// Whether ciphertext hiding is enabled.
    pub fn ciphertext_hiding_enabled(&self) -> (r: u64)
        ensures
            r == bits64(self.0, 4, 4),
    {
        get_bits64(self.0, 4, 4)
    }

    /// Whether alias detection completed since the last reset and found no aliasing addresses.
    pub fn alias_check_complete(&self) -> (r: u64)
        ensures
            r == bits64(self.0, 5, 5),
    {
        get_bits64(self.0, 5, 5)
    }
}


/// Which key signed a report: bit 0 author key digest present, bit 1 chip
/// key masked, bits 4:2 the signing key (0 VCEK, 1 VLEK, 7 none, others
/// reserved); bits 31:5 reserved.
#[derive(Debug, Clone, Copy, Default, PartialEq, Eq, Structural)]
pub struct KeyInfo(pub u32);

impl KeyInfo {
    /// Whether the author key digest is present in the report.
    pub fn author_key_en(&self) -> (r: bool)
        ensures
            r == bit32(self.0, 0),
    {
        get_bit32(self.0, 0)
    }

    /// Whether the firmware wrote zeros in place of a signature.
    pub fn mask_chip_key(&self) -> (r: u32)
        ensures
            r == bits32(self.0, 1, 1),
    {
        get_bits32(self.0, 1, 1)
    }

    /// The encoding of the key that signed the report.
    pub fn signing_key(&self) -> (r: u32)
        ensures
            r == bits32(self.0, 2, 4),
    {
        get_bits32(self.0, 2, 4)
    }
}

/// Which guest data a derived key mixes in: bit 0 the guest policy, 1 the
/// image ID, 2 the family ID, 3 the launch measurement, 4 the guest SVN,
/// 5 the TCB version; bits 63:6 reserved.
#[derive(Debug, Clone, Copy, Default, PartialEq, Eq, Structural)]
pub struct GuestFieldSelect(pub u64);

impl GuestFieldSelect {
    /// Whether the guest policy is mixed into the key.
    pub fn get_guest_policy(&self) -> (r: u64)
        ensures
            r == bits64(self.0, 0, 0),
    {
        get_bits64(self.0, 0, 0)
    }

    /// Selects whether the guest policy is mixed into the key.
    pub fn set_guest_policy(&mut self, value: u64)
        ensures
            sets_bits64(old(self).0, final(self).0, 0, 0, value),
    {
        self.0 = set_bits64(self.0, 0, 0, value);
    }

    /// Whether the image ID is mixed into the key.
    pub fn get_image_id(&self) -> (r: u64)
        ensures
            r == bits64(self.0, 1, 1),
    {
        get_bits64(self.0, 1, 1)
    }

    /// Selects whether the image ID is mixed into the key.
    pub fn set_image_id(&mut self, value: u64)
        ensures
            sets_bits64(old(self).0, final(self).0, 1, 1, value),
    {
        self.0 = set_bits64(self.0, 1, 1, value);
    }

    /// Whether the family ID is mixed into the key.
    pub fn get_family_id(&self) -> (r: u64)
        ensures
            r == bits64(self.0, 2, 2),
    {
        get_bits64(self.0, 2, 2)
    }

    /// Selects whether the family ID is mixed into the key.
    pub fn set_family_id(&mut self, value: u64)
        ensures
            sets_bits64(old(self).0, final(self).0, 2, 2, value),
    {
        self.0 = set_bits64(self.0, 2, 2, value);
    }

    /// Whether the launch measurement is mixed into the key.
    pub fn get_measurement(&self) -> (r: u64)
        ensures
            r == bits64(self.0, 3, 3),
    {
        get_bits64(self.0, 3, 3)
    }

    /// Selects whether the launch measurement is mixed into the key.
    pub fn set_measurement(&mut self, value: u64)
        ensures
            sets_bits64(old(self).0, final(self).0, 3, 3, value),
    {
        self.0 = set_bits64(self.0, 3, 3, value);
    }

    /// Whether the guest SVN is mixed into the key.
    pub fn get_svn(&self) -> (r: u64)
        ensures
            r == bits64(self.0, 4, 4),
    {
        get_bits64(self.0, 4, 4)
    }

    /// Selects whether the guest SVN is mixed into the key.
    pub fn set_svn(&mut self, value: u64)
        ensures
            sets_bits64(old(self).0, final(self).0, 4, 4, value),
    {
        self.0 = set_bits64(self.0, 4, 4, value);
    }

    /// Whether the TCB version is mixed into the key.
    pub fn get_tcb_version(&self) -> (r: u64)
        ensures
            r == bits64(self.0, 5, 5),
    {
        get_bits64(self.0, 5, 5)
    }

    /// Selects whether the TCB version is mixed into the key.
    pub fn set_tcb_version(&mut self, value: u64)
        ensures
            sets_bits64(old(self).0, final(self).0, 5, 5, value),
    {
        self.0 = set_bits64(self.0, 5, 5, value);
    }

}

/// The platform information of a report, in the layout of the report's
/// version.
#[derive(Debug, Clone, Copy, PartialEq, Eq)]
pub enum PlatformInfo {
    /// The layout of version 2 reports.
    V1(PlatformInfoV1),
    /// The layout of version 3 reports.
    V2(PlatformInfoV2),
}

/// The word under either layout.
pub open spec fn platform_word(p: PlatformInfo) -> u64 {
    match p {
        PlatformInfo::V1(f) => f.0,
        PlatformInfo::V2(f) => f.0,
    }
}

impl PlatformInfo {
    /// Whether SMT is enabled.
    pub fn smt_enabled(&self) -> (r: u64)
        ensures
            r == bits64(platform_word(*self), 0, 0),
    {
        match self {
            PlatformInfo::V1(field) => field.smt_enabled(),
            PlatformInfo::V2(field) => field.smt_enabled(),
        }
    }

    /// Whether TSME is enabled.
    pub fn tsme_enabled(&self) -> (r: u64)
        ensures
            r == bits64(platform_word(*self), 1, 1),
    {
        match self {
            PlatformInfo::V1(field) => field.tsme_enabled(),
            PlatformInfo::V2(field) => field.tsme_enabled(),
        }
    }

    /// Whether the platform uses ECC memory.
    pub fn ecc_enabled(&self) -> (r: u64)
        ensures
            r == bits64(platform_word(*self), 2, 2),
    {
        match self {
            PlatformInfo::V1(field) => field.ecc_enabled(),
            PlatformInfo::V2(field) => field.ecc_enabled(),
        }
    }

    /// Whether RAPL is disabled.
    pub fn rapl_disabled(&self) -> (r: u64)
        ensures
            r == bits64(platform_word(*self), 3, 3),
    {
        match self {
            PlatformInfo::V1(field) => field.rapl_disabled(),
            PlatformInfo::V2(field) => field.rapl_disabled(),
        }
    }

    /// Whether ciphertext hiding is enabled.
    pub fn cypertext_hiding_enabled(&self) -> (r: u64)
        ensures
            r == bits64(platform_word(*self), 4, 4),
    {
        match self {
            PlatformInfo::V1(field) => field.ciphertext_hiding_enabled(),
            PlatformInfo::V2(field) => field.ciphertext_hiding_enabled(),
        }
    }

    /// Whether alias detection completed; only the second layout has the bit.
    pub fn alias_check_complete(&self) -> (r: Result<u64, AttestationReportError>)
        ensures
            match *self {
                PlatformInfo::V1(_) => r matches Err(AttestationReportError::UnsupportedField(name))
                    && name@ == "Alias Check Complete"@,
                PlatformInfo::V2(f) => r == Ok::<u64, AttestationReportError>(bits64(f.0, 5, 5)),
            },
    {
        match self {
            PlatformInfo::V1(_) => {
                let name = "Alias Check Complete".to_owned();
                proof {
                    reveal_strlit("Alias Check Complete");
                }
                Err(AttestationReportError::UnsupportedField(name))
            },
            PlatformInfo::V2(field) => Ok(field.alias_check_complete()),
        }
    }
}

} // verus!
