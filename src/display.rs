//! Human-readable forms of reports and their fields.
use vstd::prelude::*;
use vstd::string::StringExecFns;
use crate::bits::{bit32, bits32, bits64};
use crate::policy::{GuestPolicy, KeyInfo, PlatformInfoV1, PlatformInfoV2};
use crate::report::{
    AttestationReport, AttestationReportV2, AttestationReportV3, Signature, TcbVersion, REPORT_SIZE,
};
use crate::text::{
    bool_text, decimal, hexadecimal, hexdump, push_bool, push_decimal, push_hexadecimal,
    push_hexdump,
};

verus! {

/// The text form of a guest policy: its word in hexadecimal and its main fields.
pub open spec fn policy_text(p: GuestPolicy) -> Seq<char> {
    "\n    Guest Policy (0x"@
        + hexadecimal(p.0 as nat)
        + "):\n    ABI Major:     "@
        + decimal(bits64(p.0, 8, 15) as nat)
        + "\n    ABI Minor:     "@
        + decimal(bits64(p.0, 0, 7) as nat)
        + "\n    SMT Allowed:   "@
        + decimal(bits64(p.0, 16, 16) as nat)
        + "\n    Migrate MA:    "@
        + decimal(bits64(p.0, 18, 18) as nat)
        + "\n    Debug Allowed: "@
        + decimal(bits64(p.0, 19, 19) as nat)
        + "\n    Single Socket: "@
        + decimal(bits64(p.0, 20, 20) as nat)
}

impl GuestPolicy {
    /// The policy as text.
    pub fn to_text(&self) -> (r: String)
        ensures
            r@ == policy_text(*self),
    {
        let mut out = String::from_str("\n    Guest Policy (0x");
        push_hexadecimal(&mut out, self.0);
        out.append("):\n    ABI Major:     ");
        push_decimal(&mut out, self.abi_major());
        out.append("\n    ABI Minor:     ");
        push_decimal(&mut out, self.abi_minor());
        out.append("\n    SMT Allowed:   ");
        push_decimal(&mut out, self.smt_allowed());
        out.append("\n    Migrate MA:    ");
        push_decimal(&mut out, self.migrate_ma_allowed());
        out.append("\n    Debug Allowed: ");
        push_decimal(&mut out, self.debug_allowed());
        out.append("\n    Single Socket: ");
        push_decimal(&mut out, self.single_socket_required());
        out
    }
}

/// The text form of platform information in the first layout.
pub open spec fn platform_v1_text(p: PlatformInfoV1) -> Seq<char> {
    "\nPlatform Info ("@
        + decimal(p.0 as nat)
        + "):\n  SMT Enabled:               "@
        + decimal(bits64(p.0, 0, 0) as nat)
        + "\n  TSME Enabled:              "@
        + decimal(bits64(p.0, 1, 1) as nat)
        + "\n  ECC Enabled:               "@
        + decimal(bits64(p.0, 2, 2) as nat)
        + "\n  RAPL Disabled:             "@
        + decimal(bits64(p.0, 3, 3) as nat)
        + "\n  Ciphertext Hiding Enabled: "@
        + decimal(bits64(p.0, 4, 4) as nat)
        + "\n"@
}

impl PlatformInfoV1 {
    /// The platform information as text.
    pub fn to_text(&self) -> (r: String)
        ensures
            r@ == platform_v1_text(*self),
    {
        let mut out = String::from_str("\nPlatform Info (");
        push_decimal(&mut out, self.0);
        out.append("):\n  SMT Enabled:               ");
        push_decimal(&mut out, self.smt_enabled());
        out.append("\n  TSME Enabled:              ");
        push_decimal(&mut out, self.tsme_enabled());
        out.append("\n  ECC Enabled:               ");
        push_decimal(&mut out, self.ecc_enabled());
        out.append("\n  RAPL Disabled:             ");
        push_decimal(&mut out, self.rapl_disabled());
        out.append("\n  Ciphertext Hiding Enabled: ");
        push_decimal(&mut out, self.ciphertext_hiding_enabled());
        out.append("\n");
        out
    }
}

/// The text form of platform information in the second layout.
pub open spec fn platform_v2_text(p: PlatformInfoV2) -> Seq<char> {
    "\nPlatform Info ("@
        + decimal(p.0 as nat)
        + "):\n  SMT Enabled:               "@
        + decimal(bits64(p.0, 0, 0) as nat)
        + "\n  TSME Enabled:              "@
        + decimal(bits64(p.0, 1, 1) as nat)
        + "\n  ECC Enabled:               "@
        + decimal(bits64(p.0, 2, 2) as nat)
        + "\n  RAPL Disabled:             "@
        + decimal(bits64(p.0, 3, 3) as nat)
        + "\n  Ciphertext Hiding Enabled: "@
        + decimal(bits64(p.0, 4, 4) as nat)
        + "\n  Alias Check Complete:      "@
        + decimal(bits64(p.0, 5, 5) as nat)
        + "\n"@
}

impl PlatformInfoV2 {
    /// The platform information as text.
    pub fn to_text(&self) -> (r: String)
        ensures
            r@ == platform_v2_text(*self),
    {
        let mut out = String::from_str("\nPlatform Info (");
        push_decimal(&mut out, self.0);
        out.append("):\n  SMT Enabled:               ");
        push_decimal(&mut out, self.smt_enabled());
        out.append("\n  TSME Enabled:              ");
        push_decimal(&mut out, self.tsme_enabled());
        out.append("\n  ECC Enabled:               ");
        push_decimal(&mut out, self.ecc_enabled());
        out.append("\n  RAPL Disabled:             ");
        push_decimal(&mut out, self.rapl_disabled());
        out.append("\n  Ciphertext Hiding Enabled: ");
        push_decimal(&mut out, self.ciphertext_hiding_enabled());
        out.append("\n  Alias Check Complete:      ");
        push_decimal(&mut out, self.alias_check_complete());
        out.append("\n");
        out
    }
}

/// The name of a signing key encoding.
pub open spec fn signing_key_name(v: u32) -> Seq<char> {
    if v == 0 {
        "vcek"@
    } else if v == 1 {
        "vlek"@
    } else if v == 7 {
        "none"@
    } else {
        "unkown"@
    }
}

fn signing_key_str(v: u32) -> (r: &'static str)
    ensures
        r@ == signing_key_name(v),
{
    if v == 0 {
        "vcek"
    } else if v == 1 {
        "vlek"
    } else if v == 7 {
        "none"
    } else {
        "unkown"
    }
}

/// The text form of key information.
pub open spec fn key_info_text(p: KeyInfo) -> Seq<char> {
    "\nKey Information:\n    author key enabled: "@
        + bool_text(bit32(p.0, 0))
        + "\n    mask chip key:      "@
        + decimal(bits32(p.0, 1, 1) as nat)
        + "\n    signing key:        "@
        + signing_key_name(bits32(p.0, 2, 4))
        + "\n"@
}

impl KeyInfo {
    /// The key information as text.
    pub fn to_text(&self) -> (r: String)
        ensures
            r@ == key_info_text(*self),
    {
        let mut out = String::from_str("\nKey Information:\n    author key enabled: ");
        push_bool(&mut out, self.author_key_en());
        out.append("\n    mask chip key:      ");
        push_decimal(&mut out, self.mask_chip_key() as u64);
        out.append("\n    signing key:        ");
        out.append(signing_key_str(self.signing_key()));
        out.append("\n");
        out
    }
}

/// The text form of a TCB version, one SVN per line.
pub open spec fn tcb_text(p: TcbVersion) -> Seq<char> {
    "Microcode:   "@
        + decimal(p.microcode as nat)
        + "\nSNP:         "@
        + decimal(p.snp as nat)
        + "\nTEE:         "@
        + decimal(p.tee as nat)
        + "\nBoot Loader: "@
        + decimal(p.bootloader as nat)
}

impl TcbVersion {
    /// The TCB version as text.
    pub fn to_text(&self) -> (r: String)
        ensures
            r@ == tcb_text(*self),
    {
        let mut out = String::from_str("Microcode:   ");
        push_decimal(&mut out, self.microcode as u64);
        out.append("\nSNP:         ");
        push_decimal(&mut out, self.snp as u64);
        out.append("\nTEE:         ");
        push_decimal(&mut out, self.tee as u64);
        out.append("\nBoot Loader: ");
        push_decimal(&mut out, self.bootloader as u64);
        out
    }
}

/// The text form of a signature: hex dumps of its components.
pub open spec fn signature_text(p: Signature) -> Seq<char> {
    "\nSignature:\n  R: "@
        + hexdump(p.r@)
        + "\n  S: "@
        + hexdump(p.s@)
}

impl Signature {
    /// The signature as text.
    pub fn to_text(&self) -> (r: String)
        ensures
            r@ == signature_text(*self),
    {
        let mut out = String::from_str("\nSignature:\n  R: ");
        push_hexdump(&mut out, self.r.as_slice());
        out.append("\n  S: ");
        push_hexdump(&mut out, self.s.as_slice());
        out
    }
}

/// The text form of a version 2 report, one field per line.
pub open spec fn report_v2_text(p: AttestationReportV2) -> Seq<char> {
    "\nAttestation Report ("@
        + decimal(REPORT_SIZE as nat)
        + " bytes):\nVersion:                      "@
        + decimal(p.version as nat)
        + "\nGuest SVN:                    "@
        + decimal(p.guest_svn as nat)
        + "\n"@
        + policy_text(p.policy)
        + "\nFamily ID:                    "@
        + hexdump(p.family_id@)
        + "\nImage ID:                     "@
        + hexdump(p.image_id@)
        + "\nVMPL:                         "@
        + decimal(p.vmpl as nat)
        + "\nSignature Algorithm:          "@
        + decimal(p.sig_algo as nat)
        + "\nCurrent TCB:\n"@
        + tcb_text(p.current_tcb)
        + "\n"@
        + platform_v1_text(p.plat_info)
        + "\n"@
        + key_info_text(p.key_info)
        + "\nReport Data:                  "@
        + hexdump(p.report_data@)
        + "\nMeasurement:                  "@
        + hexdump(p.measurement@)
        + "\nHost Data:                    "@
        + hexdump(p.host_data@)
        + "\nID Key Digest:                "@
        + hexdump(p.id_key_digest@)
        + "\nAuthor Key Digest:            "@
        + hexdump(p.author_key_digest@)
        + "\nReport ID:                    "@
        + hexdump(p.report_id@)
        + "\nReport ID Migration Agent:    "@
        + hexdump(p.report_id_ma@)
        + "\nReported TCB:                 "@
        + tcb_text(p.reported_tcb)
        + "\nChip ID:                      "@
        + hexdump(p.chip_id@)
        + "\nCommitted TCB:\n"@
        + tcb_text(p.committed_tcb)
        + "\nCurrent Build:                "@
        + decimal(p.current_build as nat)
        + "\nCurrent Minor:                "@
        + decimal(p.current_minor as nat)
        + "\nCurrent Major:                "@
        + decimal(p.current_major as nat)
        + "\nCommitted Build:              "@
        + decimal(p.committed_build as nat)
        + "\nCommitted Minor:              "@
        + decimal(p.committed_minor as nat)
        + "\nCommitted Major:              "@
        + decimal(p.committed_major as nat)
        + "\nLaunch TCB:\n"@
        + tcb_text(p.launch_tcb)
        + "\n"@
        + signature_text(p.signature)
        + "\n"@
}

impl AttestationReportV2 {
    /// The report as text.
    pub fn to_text(&self) -> (r: String)
        ensures
            r@ == report_v2_text(*self),
    {
        let mut out = String::from_str("\nAttestation Report (");
        push_decimal(&mut out, REPORT_SIZE as u64);
        out.append(" bytes):\nVersion:                      ");
        push_decimal(&mut out, self.version as u64);
        out.append("\nGuest SVN:                    ");
        push_decimal(&mut out, self.guest_svn as u64);
        out.append("\n");
        out.append(self.policy.to_text().as_str());
        out.append("\nFamily ID:                    ");
        push_hexdump(&mut out, self.family_id.as_slice());
        out.append("\nImage ID:                     ");
        push_hexdump(&mut out, self.image_id.as_slice());
        out.append("\nVMPL:                         ");
        push_decimal(&mut out, self.vmpl as u64);
        out.append("\nSignature Algorithm:          ");
        push_decimal(&mut out, self.sig_algo as u64);
        out.append("\nCurrent TCB:\n");
        out.append(self.current_tcb.to_text().as_str());
        out.append("\n");
        out.append(self.plat_info.to_text().as_str());
        out.append("\n");
        out.append(self.key_info.to_text().as_str());
        out.append("\nReport Data:                  ");
        push_hexdump(&mut out, self.report_data.as_slice());
        out.append("\nMeasurement:                  ");
        push_hexdump(&mut out, self.measurement.as_slice());
        out.append("\nHost Data:                    ");
        push_hexdump(&mut out, self.host_data.as_slice());
        out.append("\nID Key Digest:                ");
        push_hexdump(&mut out, self.id_key_digest.as_slice());
        out.append("\nAuthor Key Digest:            ");
        push_hexdump(&mut out, self.author_key_digest.as_slice());
        out.append("\nReport ID:                    ");
        push_hexdump(&mut out, self.report_id.as_slice());
        out.append("\nReport ID Migration Agent:    ");
        push_hexdump(&mut out, self.report_id_ma.as_slice());
        out.append("\nReported TCB:                 ");
        out.append(self.reported_tcb.to_text().as_str());
        out.append("\nChip ID:                      ");
        push_hexdump(&mut out, self.chip_id.as_slice());
        out.append("\nCommitted TCB:\n");
        out.append(self.committed_tcb.to_text().as_str());
        out.append("\nCurrent Build:                ");
        push_decimal(&mut out, self.current_build as u64);
        out.append("\nCurrent Minor:                ");
        push_decimal(&mut out, self.current_minor as u64);
        out.append("\nCurrent Major:                ");
        push_decimal(&mut out, self.current_major as u64);
        out.append("\nCommitted Build:              ");
        push_decimal(&mut out, self.committed_build as u64);
        out.append("\nCommitted Minor:              ");
        push_decimal(&mut out, self.committed_minor as u64);
        out.append("\nCommitted Major:              ");
        push_decimal(&mut out, self.committed_major as u64);
        out.append("\nLaunch TCB:\n");
        out.append(self.launch_tcb.to_text().as_str());
        out.append("\n");
        out.append(self.signature.to_text().as_str());
        out.append("\n");
        out
    }
}

/// The text form of a version 3 report, one field per line.
pub open spec fn report_v3_text(p: AttestationReportV3) -> Seq<char> {
    "\nAttestation Report ("@
        + decimal(REPORT_SIZE as nat)
        + " bytes):\nVersion:                      "@
        + decimal(p.version as nat)
        + "\nGuest SVN:                    "@
        + decimal(p.guest_svn as nat)
        + "\n"@
        + policy_text(p.policy)
        + "\nFamily ID:                    "@
        + hexdump(p.family_id@)
        + "\nImage ID:                     "@
        + hexdump(p.image_id@)
        + "\nVMPL:                         "@
        + decimal(p.vmpl as nat)
        + "\nSignature Algorithm:          "@
        + decimal(p.sig_algo as nat)
        + "\nCurrent TCB:\n"@
        + tcb_text(p.current_tcb)
        + "\n"@
        + platform_v2_text(p.plat_info)
        + "\n"@
        + key_info_text(p.key_info)
        + "\nReport Data:                  "@
        + hexdump(p.report_data@)
        + "\nMeasurement:                  "@
        + hexdump(p.measurement@)
        + "\nHost Data:                    "@
        + hexdump(p.host_data@)
        + "\nID Key Digest:                "@
        + hexdump(p.id_key_digest@)
        + "\nAuthor Key Digest:            "@
        + hexdump(p.author_key_digest@)
        + "\nReport ID:                    "@
        + hexdump(p.report_id@)
        + "\nReport ID Migration Agent:    "@
        + hexdump(p.report_id_ma@)
        + "\nReported TCB:                 "@
        + tcb_text(p.reported_tcb)
        + "\nCPUID Family ID:              "@
        + decimal(p.cpuid_fam_id as nat)
        + "\nCPUID Model ID:               "@
        + decimal(p.cpuid_mod_id as nat)
        + "\nCPUID Stepping:               "@
        + decimal(p.cpuid_step as nat)
        + "\nChip ID:                      "@
        + hexdump(p.chip_id@)
        + "\nCommitted TCB:\n"@
        + tcb_text(p.committed_tcb)
        + "\nCurrent Build:                "@
        + decimal(p.current_build as nat)
        + "\nCurrent Minor:                "@
        + decimal(p.current_minor as nat)
        + "\nCurrent Major:                "@
        + decimal(p.current_major as nat)
        + "\nCommitted Build:              "@
        + decimal(p.committed_build as nat)
        + "\nCommitted Minor:              "@
        + decimal(p.committed_minor as nat)
        + "\nCommitted Major:              "@
        + decimal(p.committed_major as nat)
        + "\nLaunch TCB:\n"@
        + tcb_text(p.launch_tcb)
        + "\n"@
        + signature_text(p.signature)
        + "\n"@
}

impl AttestationReportV3 {
    /// The report as text.
    pub fn to_text(&self) -> (r: String)
        ensures
            r@ == report_v3_text(*self),
    {
        let mut out = String::from_str("\nAttestation Report (");
        push_decimal(&mut out, REPORT_SIZE as u64);
        out.append(" bytes):\nVersion:                      ");
        push_decimal(&mut out, self.version as u64);
        out.append("\nGuest SVN:                    ");
        push_decimal(&mut out, self.guest_svn as u64);
        out.append("\n");
        out.append(self.policy.to_text().as_str());
        out.append("\nFamily ID:                    ");
        push_hexdump(&mut out, self.family_id.as_slice());
        out.append("\nImage ID:                     ");
        push_hexdump(&mut out, self.image_id.as_slice());
        out.append("\nVMPL:                         ");
        push_decimal(&mut out, self.vmpl as u64);
        out.append("\nSignature Algorithm:          ");
        push_decimal(&mut out, self.sig_algo as u64);
        out.append("\nCurrent TCB:\n");
        out.append(self.current_tcb.to_text().as_str());
        out.append("\n");
        out.append(self.plat_info.to_text().as_str());
        out.append("\n");
        out.append(self.key_info.to_text().as_str());
        out.append("\nReport Data:                  ");
        push_hexdump(&mut out, self.report_data.as_slice());
        out.append("\nMeasurement:                  ");
        push_hexdump(&mut out, self.measurement.as_slice());
        out.append("\nHost Data:                    ");
        push_hexdump(&mut out, self.host_data.as_slice());
        out.append("\nID Key Digest:                ");
        push_hexdump(&mut out, self.id_key_digest.as_slice());
        out.append("\nAuthor Key Digest:            ");
        push_hexdump(&mut out, self.author_key_digest.as_slice());
        out.append("\nReport ID:                    ");
        push_hexdump(&mut out, self.report_id.as_slice());
        out.append("\nReport ID Migration Agent:    ");
        push_hexdump(&mut out, self.report_id_ma.as_slice());
        out.append("\nReported TCB:                 ");
        out.append(self.reported_tcb.to_text().as_str());
        out.append("\nCPUID Family ID:              ");
        push_decimal(&mut out, self.cpuid_fam_id as u64);
        out.append("\nCPUID Model ID:               ");
        push_decimal(&mut out, self.cpuid_mod_id as u64);
        out.append("\nCPUID Stepping:               ");
        push_decimal(&mut out, self.cpuid_step as u64);
        out.append("\nChip ID:                      ");
        push_hexdump(&mut out, self.chip_id.as_slice());
        out.append("\nCommitted TCB:\n");
        out.append(self.committed_tcb.to_text().as_str());
        out.append("\nCurrent Build:                ");
        push_decimal(&mut out, self.current_build as u64);
        out.append("\nCurrent Minor:                ");
        push_decimal(&mut out, self.current_minor as u64);
        out.append("\nCurrent Major:                ");
        push_decimal(&mut out, self.current_major as u64);
        out.append("\nCommitted Build:              ");
        push_decimal(&mut out, self.committed_build as u64);
        out.append("\nCommitted Minor:              ");
        push_decimal(&mut out, self.committed_minor as u64);
        out.append("\nCommitted Major:              ");
        push_decimal(&mut out, self.committed_major as u64);
        out.append("\nLaunch TCB:\n");
        out.append(self.launch_tcb.to_text().as_str());
        out.append("\n");
        out.append(self.signature.to_text().as_str());
        out.append("\n");
        out
    }
}

/// The text form of a report of either version.
pub open spec fn report_text(r: AttestationReport) -> Seq<char> {
    match r {
        AttestationReport::V2(x) => report_v2_text(x),
        AttestationReport::V3(x) => report_v3_text(x),
    }
}

impl AttestationReport {
    /// The report as text.
    pub fn to_text(&self) -> (r: String)
        ensures
            r@ == report_text(*self),
    {
        match self {
            AttestationReport::V2(report) => report.to_text(),
            AttestationReport::V3(report) => report.to_text(),
        }
    }
}

} // verus!
