//! The attestation report: its two layouts, their wire form, and one
//! accessor surface over both.
//!
//! Reserved fields are kept as they were read and are not checked to be
//! zero, so a decoded report encodes back to exactly the bytes it came
//! from.
use vstd::prelude::*;
use crate::error::AttestationReportError;
use crate::policy::{GuestPolicy, KeyInfo, PlatformInfo, PlatformInfoV1, PlatformInfoV2};
use crate::wire::{
    le32, le64, lemma_le32_injective, lemma_le64_injective, lemma_u32_from_le32, push_bytes,
    push_u32, push_u64,
    push_u8, read_array, read_u32, read_u64, read_u8, u32_from_le,
};

verus! {

/// Size in bytes of a report of either version.
pub const REPORT_SIZE: usize = 1184;

/// Size in bytes of the part of a report that the signature covers.
pub const MEASURABLE_SIZE: usize = 0x2a0;

/// A TCB version: the security version numbers of the firmware parts.
#[derive(Debug, Clone, Copy, PartialEq, Eq)]
pub struct TcbVersion {
    /// SVN of the boot loader.
    pub bootloader: u8,
    /// SVN of the secure processor's operating system.
    pub tee: u8,
    /// Reserved.
    pub reserved: [u8; 4],
    /// SVN of the SNP firmware.
    pub snp: u8,
    /// Lowest microcode patch level of all cores.
    pub microcode: u8,
}

/// The wire form of a TCB version.
pub open spec fn tcb_bytes(t: TcbVersion) -> Seq<u8> {
    seq![t.bootloader, t.tee] + t.reserved@ + seq![t.snp, t.microcode]
}

impl TcbVersion {
    /// A TCB version with the given SVNs and zero reserved bytes.
    pub fn new(bootloader: u8, tee: u8, snp: u8, microcode: u8) -> (r: Self)
        ensures
            r.bootloader == bootloader,
            r.tee == tee,
            r.snp == snp,
            r.microcode == microcode,
            r.reserved@ == seq![0u8, 0u8, 0u8, 0u8],
    {
        let r = TcbVersion { bootloader, tee, reserved: [0u8; 4], snp, microcode };
        assert(r.reserved@ =~= seq![0u8, 0u8, 0u8, 0u8]);
        r
    }
}

/// Two TCB versions with the same wire form are equal.
pub proof fn lemma_tcb_injective(a: TcbVersion, b: TcbVersion)
    requires
        tcb_bytes(a) == tcb_bytes(b),
    ensures
        a == b,
{
    let x = tcb_bytes(a);
    assert(tcb_bytes(a)[0] == tcb_bytes(b)[0] && tcb_bytes(a)[1] == tcb_bytes(b)[1]);
    assert(tcb_bytes(a)[6] == tcb_bytes(b)[6] && tcb_bytes(a)[7] == tcb_bytes(b)[7]);
    assert forall|i: int| 0 <= i < 4 implies a.reserved[i] == b.reserved[i] by {
        assert(tcb_bytes(a)[2 + i] == tcb_bytes(b)[2 + i]);
    }
    assert(a.reserved =~= b.reserved);
}

/// Concatenations with equal right parts' lengths split alike.
proof fn lemma_concat_split_all()
    ensures
        forall|a1: Seq<u8>, a2: Seq<u8>, b1: Seq<u8>, b2: Seq<u8>|
            #![trigger a1 + a2, b1 + b2]
            a1 + a2 == b1 + b2 && a2.len() == b2.len() ==> a1 == b1 && a2 == b2,
{
    assert forall|a1: Seq<u8>, a2: Seq<u8>, b1: Seq<u8>, b2: Seq<u8>|
        #![trigger a1 + a2, b1 + b2]
        a1 + a2 == b1 + b2 && a2.len() == b2.len() implies a1 == b1 && a2 == b2 by {
        assert(a1 =~= (a1 + a2).subrange(0, a1.len() as int));
        assert(b1 =~= (b1 + b2).subrange(0, b1.len() as int));
        assert(a2 =~= (a1 + a2).subrange(a1.len() as int, (a1 + a2).len() as int));
        assert(b2 =~= (b1 + b2).subrange(b1.len() as int, (b1 + b2).len() as int));
    }
}

fn read_tcb(b: &[u8], pos: usize, Ghost(done): Ghost<Seq<u8>>) -> (r: TcbVersion)
    requires
        pos + 8 <= b.len(),
        done == b@.subrange(0, pos as int),
    ensures
        done + tcb_bytes(r) == b@.subrange(0, pos + 8),
{
    let bootloader = read_u8(b, pos, Ghost(done));
    let tee = read_u8(b, pos + 1, Ghost(done + seq![bootloader]));
    let reserved = read_array::<4>(b, pos + 2, Ghost(done + seq![bootloader] + seq![tee]));
    let snp = read_u8(b, pos + 6, Ghost(done + seq![bootloader] + seq![tee] + reserved@));
    let microcode = read_u8(
        b,
        pos + 7,
        Ghost(done + seq![bootloader] + seq![tee] + reserved@ + seq![snp]),
    );
    let r = TcbVersion { bootloader, tee, reserved, snp, microcode };
    proof {
        assert(done + tcb_bytes(r) =~= done + seq![bootloader] + seq![tee] + reserved@ + seq![snp]
            + seq![microcode]);
    }
    r
}

fn push_tcb(out: &mut Vec<u8>, t: &TcbVersion)
    ensures
        final(out)@ == old(out)@ + tcb_bytes(*t),
{
    push_u8(out, t.bootloader);
    push_u8(out, t.tee);
    push_bytes(out, t.reserved.as_slice());
    push_u8(out, t.snp);
    push_u8(out, t.microcode);
    proof {
        assert(final(out)@ =~= old(out)@ + tcb_bytes(*t));
    }
}

/// An ECDSA P-384 signature as the firmware writes it: `r` and `s` each as
/// 72 little-endian bytes, of which the first 48 carry the scalar.
#[derive(Debug, Clone, Copy, PartialEq, Eq)]
pub struct Signature {
    /// The `r` component, least significant byte first.
    pub r: [u8; 72],
    /// The `s` component, least significant byte first.
    pub s: [u8; 72],
    /// Reserved.
    pub reserved: [u8; 368],
}

/// The wire form of a signature.
pub open spec fn signature_bytes(s: Signature) -> Seq<u8> {
    s.r@ + s.s@ + s.reserved@
}

impl Signature {
    /// The `r` component.
    pub fn r(&self) -> (r: &[u8; 72])
        ensures
            *r == self.r,
    {
        &self.r
    }

    /// The `s` component.
    pub fn s(&self) -> (r: &[u8; 72])
        ensures
            *r == self.s,
    {
        &self.s
    }
}

/// Two signatures with the same wire form are equal.
pub proof fn lemma_signature_injective(a: Signature, b: Signature)
    requires
        signature_bytes(a) == signature_bytes(b),
    ensures
        a == b,
{
    lemma_concat_split_all();
    assert(a.r@ == b.r@);
    assert(a.r =~= b.r);
    assert(a.s =~= b.s);
    assert(a.reserved =~= b.reserved);
}

fn read_signature(b: &[u8], pos: usize, Ghost(done): Ghost<Seq<u8>>) -> (r: Signature)
    requires
        pos + 512 <= b.len(),
        done == b@.subrange(0, pos as int),
    ensures
        done + signature_bytes(r) == b@.subrange(0, pos + 512),
{
    let r_part = read_array::<72>(b, pos, Ghost(done));
    let s_part = read_array::<72>(b, pos + 72, Ghost(done + r_part@));
    let reserved = read_array::<368>(b, pos + 144, Ghost(done + r_part@ + s_part@));
    let r = Signature { r: r_part, s: s_part, reserved };
    proof {
        assert(done + signature_bytes(r) =~= done + r_part@ + s_part@ + reserved@);
    }
    r
}

fn push_signature(out: &mut Vec<u8>, s: &Signature)
    ensures
        final(out)@ == old(out)@ + signature_bytes(*s),
{
    push_bytes(out, s.r.as_slice());
    push_bytes(out, s.s.as_slice());
    push_bytes(out, s.reserved.as_slice());
    proof {
        assert(final(out)@ =~= old(out)@ + signature_bytes(*s));
    }
}

/// A version 2 attestation report, the layout of firmware before ABI 1.56.
#[derive(Debug, Clone, Copy, PartialEq, Eq)]
pub struct AttestationReportV2 {
    /// Version number of the report layout.
    pub version: u32,
    /// The guest SVN.
    pub guest_svn: u32,
    /// The guest policy.
    pub policy: GuestPolicy,
    /// The family ID provided at launch.
    pub family_id: [u8; 16],
    /// The image ID provided at launch.
    pub image_id: [u8; 16],
    /// The VMPL the report was requested for.
    pub vmpl: u32,
    /// The algorithm that signed the report.
    pub sig_algo: u32,
    /// The current TCB.
    pub current_tcb: TcbVersion,
    /// Information about the platform.
    pub plat_info: PlatformInfoV1,
    /// Which key signed the report.
    pub key_info: KeyInfo,
    /// Reserved.
    pub reserved_0: u32,
    /// Data the guest supplied with the request.
    pub report_data: [u8; 64],
    /// The measurement calculated at launch.
    pub measurement: [u8; 48],
    /// Data the hypervisor provided at launch.
    pub host_data: [u8; 32],
    /// SHA-384 digest of the ID public key that signed the ID block.
    pub id_key_digest: [u8; 48],
    /// SHA-384 digest of the author key that certified the ID key.
    pub author_key_digest: [u8; 48],
    /// Report ID of this guest.
    pub report_id: [u8; 32],
    /// Report ID of this guest's migration agent.
    pub report_id_ma: [u8; 32],
    /// The TCB version used to derive the key that signed the report.
    pub reported_tcb: TcbVersion,
    /// Reserved.
    pub reserved_1: [u8; 24],
    /// Identifier unique to the chip, or zeros if it is masked.
    pub chip_id: [u8; 64],
    /// The committed TCB.
    pub committed_tcb: TcbVersion,
    /// Build number of the current firmware version.
    pub current_build: u8,
    /// Minor number of the current firmware version.
    pub current_minor: u8,
    /// Major number of the current firmware version.
    pub current_major: u8,
    /// Reserved.
    pub reserved_2: u8,
    /// Build number of the committed firmware version.
    pub committed_build: u8,
    /// Minor number of the committed firmware version.
    pub committed_minor: u8,
    /// Major number of the committed firmware version.
    pub committed_major: u8,
    /// Reserved.
    pub reserved_3: u8,
    /// The current TCB when the guest was launched or imported.
    pub launch_tcb: TcbVersion,
    /// Reserved.
    pub reserved_4: [u8; 168],
    /// Signature over bytes 0 to 0x29F of the report.
    pub signature: Signature,
}

/// The wire form of a version 2 report: every field at its fixed
/// offset, little-endian, with no padding.
pub open spec fn report_v2_bytes(r: AttestationReportV2) -> Seq<u8> {
    le32(r.version)
        + le32(r.guest_svn)
        + le64(r.policy.0)
        + r.family_id@
        + r.image_id@
        + le32(r.vmpl)
        + le32(r.sig_algo)
        + tcb_bytes(r.current_tcb)
        + le64(r.plat_info.0)
        + le32(r.key_info.0)
        + le32(r.reserved_0)
        + r.report_data@
        + r.measurement@
        + r.host_data@
        + r.id_key_digest@
        + r.author_key_digest@
        + r.report_id@
        + r.report_id_ma@
        + tcb_bytes(r.reported_tcb)
        + r.reserved_1@
        + r.chip_id@
        + tcb_bytes(r.committed_tcb)
        + seq![r.current_build]
        + seq![r.current_minor]
        + seq![r.current_major]
        + seq![r.reserved_2]
        + seq![r.committed_build]
        + seq![r.committed_minor]
        + seq![r.committed_major]
        + seq![r.reserved_3]
        + tcb_bytes(r.launch_tcb)
        + r.reserved_4@
        + signature_bytes(r.signature)
}

impl AttestationReportV2 {
    /// Decodes a version 2 report from the first `REPORT_SIZE` bytes of
    /// `bytes`; later bytes are ignored. The version word is not checked.
    pub fn from_bytes(bytes: &[u8]) -> (res: Result<Self, AttestationReportError>)
        ensures
            match res {
                Ok(r) => bytes@.len() >= REPORT_SIZE && report_v2_bytes(r) == bytes@.subrange(
                    0,
                    REPORT_SIZE as int,
                ),
                Err(e) => bytes@.len() < REPORT_SIZE && e == AttestationReportError::Truncated {
                    expected: REPORT_SIZE,
                    actual: bytes@.len() as usize,
                },
            },
    {
        if bytes.len() < REPORT_SIZE {
            return Err(AttestationReportError::Truncated { expected: REPORT_SIZE, actual: bytes.len() });
        }
        let b = bytes;
        let ghost mut done: Seq<u8> = Seq::empty();
        proof {
            assert(done =~= b@.subrange(0, 0));
        }
        let version = read_u32(b, 0, Ghost(done));
        proof {
            assert(Seq::<u8>::empty() + le32(version) =~= le32(version));
            done = le32(version);
        }
        let guest_svn = read_u32(b, 4, Ghost(done));
        proof {
            done = done + le32(guest_svn);
        }
        let policy_word = read_u64(b, 8, Ghost(done));
        proof {
            done = done + le64(policy_word);
        }
        let family_id = read_array::<16>(b, 16, Ghost(done));
        proof {
            done = done + family_id@;
        }
        let image_id = read_array::<16>(b, 32, Ghost(done));
        proof {
            done = done + image_id@;
        }
        let vmpl = read_u32(b, 48, Ghost(done));
        proof {
            done = done + le32(vmpl);
        }
        let sig_algo = read_u32(b, 52, Ghost(done));
        proof {
            done = done + le32(sig_algo);
        }
        let current_tcb = read_tcb(b, 56, Ghost(done));
        proof {
            done = done + tcb_bytes(current_tcb);
        }
        let plat_info_word = read_u64(b, 64, Ghost(done));
        proof {
            done = done + le64(plat_info_word);
        }
        let key_info_word = read_u32(b, 72, Ghost(done));
        proof {
            done = done + le32(key_info_word);
        }
        let reserved_0 = read_u32(b, 76, Ghost(done));
        proof {
            done = done + le32(reserved_0);
        }
        let report_data = read_array::<64>(b, 80, Ghost(done));
        proof {
            done = done + report_data@;
        }
        let measurement = read_array::<48>(b, 144, Ghost(done));
        proof {
            done = done + measurement@;
        }
        let host_data = read_array::<32>(b, 192, Ghost(done));
        proof {
            done = done + host_data@;
        }
        let id_key_digest = read_array::<48>(b, 224, Ghost(done));
        proof {
            done = done + id_key_digest@;
        }
        let author_key_digest = read_array::<48>(b, 272, Ghost(done));
        proof {
            done = done + author_key_digest@;
        }
        let report_id = read_array::<32>(b, 320, Ghost(done));
        proof {
            done = done + report_id@;
        }
        let report_id_ma = read_array::<32>(b, 352, Ghost(done));
        proof {
            done = done + report_id_ma@;
        }
        let reported_tcb = read_tcb(b, 384, Ghost(done));
        proof {
            done = done + tcb_bytes(reported_tcb);
        }
        let reserved_1 = read_array::<24>(b, 392, Ghost(done));
        proof {
            done = done + reserved_1@;
        }
        let chip_id = read_array::<64>(b, 416, Ghost(done));
        proof {
            done = done + chip_id@;
        }
        let committed_tcb = read_tcb(b, 480, Ghost(done));
        proof {
            done = done + tcb_bytes(committed_tcb);
        }
        let current_build = read_u8(b, 488, Ghost(done));
        proof {
            done = done + seq![current_build];
        }
        let current_minor = read_u8(b, 489, Ghost(done));
        proof {
            done = done + seq![current_minor];
        }
        let current_major = read_u8(b, 490, Ghost(done));
        proof {
            done = done + seq![current_major];
        }
        let reserved_2 = read_u8(b, 491, Ghost(done));
        proof {
            done = done + seq![reserved_2];
        }
        let committed_build = read_u8(b, 492, Ghost(done));
        proof {
            done = done + seq![committed_build];
        }
        let committed_minor = read_u8(b, 493, Ghost(done));
        proof {
            done = done + seq![committed_minor];
        }
        let committed_major = read_u8(b, 494, Ghost(done));
        proof {
            done = done + seq![committed_major];
        }
        let reserved_3 = read_u8(b, 495, Ghost(done));
        proof {
            done = done + seq![reserved_3];
        }
        let launch_tcb = read_tcb(b, 496, Ghost(done));
        proof {
            done = done + tcb_bytes(launch_tcb);
        }
        let reserved_4 = read_array::<168>(b, 504, Ghost(done));
        proof {
            done = done + reserved_4@;
        }
        let signature = read_signature(b, 672, Ghost(done));
        proof {
            done = done + signature_bytes(signature);
        }
        let r = AttestationReportV2 {
            version,
            guest_svn,
            policy: GuestPolicy(policy_word),
            family_id,
            image_id,
            vmpl,
            sig_algo,
            current_tcb,
            plat_info: PlatformInfoV1(plat_info_word),
            key_info: KeyInfo(key_info_word),
            reserved_0,
            report_data,
            measurement,
            host_data,
            id_key_digest,
            author_key_digest,
            report_id,
            report_id_ma,
            reported_tcb,
            reserved_1,
            chip_id,
            committed_tcb,
            current_build,
            current_minor,
            current_major,
            reserved_2,
            committed_build,
            committed_minor,
            committed_major,
            reserved_3,
            launch_tcb,
            reserved_4,
            signature,
        };
        proof {
            assert(report_v2_bytes(r) == done);
        }
        Ok(r)
    }

    /// The wire form of the report.
    pub fn to_bytes(&self) -> (out: Vec<u8>)
        ensures
            out@ == report_v2_bytes(*self),
            out@.len() == REPORT_SIZE,
    {
        let mut out: Vec<u8> = Vec::with_capacity(REPORT_SIZE);
        push_u32(&mut out, self.version);
        proof {
            assert(out@ =~= le32(self.version));
        }
        push_u32(&mut out, self.guest_svn);
        push_u64(&mut out, self.policy.0);
        push_bytes(&mut out, self.family_id.as_slice());
        push_bytes(&mut out, self.image_id.as_slice());
        push_u32(&mut out, self.vmpl);
        push_u32(&mut out, self.sig_algo);
        push_tcb(&mut out, &self.current_tcb);
        push_u64(&mut out, self.plat_info.0);
        push_u32(&mut out, self.key_info.0);
        push_u32(&mut out, self.reserved_0);
        push_bytes(&mut out, self.report_data.as_slice());
        push_bytes(&mut out, self.measurement.as_slice());
        push_bytes(&mut out, self.host_data.as_slice());
        push_bytes(&mut out, self.id_key_digest.as_slice());
        push_bytes(&mut out, self.author_key_digest.as_slice());
        push_bytes(&mut out, self.report_id.as_slice());
        push_bytes(&mut out, self.report_id_ma.as_slice());
        push_tcb(&mut out, &self.reported_tcb);
        push_bytes(&mut out, self.reserved_1.as_slice());
        push_bytes(&mut out, self.chip_id.as_slice());
        push_tcb(&mut out, &self.committed_tcb);
        push_u8(&mut out, self.current_build);
        push_u8(&mut out, self.current_minor);
        push_u8(&mut out, self.current_major);
        push_u8(&mut out, self.reserved_2);
        push_u8(&mut out, self.committed_build);
        push_u8(&mut out, self.committed_minor);
        push_u8(&mut out, self.committed_major);
        push_u8(&mut out, self.reserved_3);
        push_tcb(&mut out, &self.launch_tcb);
        push_bytes(&mut out, self.reserved_4.as_slice());
        push_signature(&mut out, &self.signature);
        proof {
            lemma_report_v2_len(*self);
        }
        out
    }

    /// The part of the wire form that the signature covers.
    pub fn measurable_bytes(&self) -> (out: Vec<u8>)
        ensures
            out@ == report_v2_bytes(*self).subrange(0, MEASURABLE_SIZE as int),
    {
        let mut out = self.to_bytes();
        out.truncate(MEASURABLE_SIZE);
        out
    }

    /// The signature carried at the end of the report.
    pub fn signature(&self) -> (r: &Signature)
        ensures
            *r == self.signature,
    {
        &self.signature
    }
}

/// A version 2 report occupies exactly `REPORT_SIZE` bytes.
pub proof fn lemma_report_v2_len(r: AttestationReportV2)
    ensures
        report_v2_bytes(r).len() == REPORT_SIZE,
{
}

/// Two version 2 reports with the same wire form are the same report.
#[verifier::rlimit(50)]
pub proof fn lemma_report_v2_injective(a: AttestationReportV2, b: AttestationReportV2)
    requires
        report_v2_bytes(a) == report_v2_bytes(b),
    ensures
        a == b,
{
    lemma_concat_split_all();
    lemma_le32_injective(a.version, b.version);
    lemma_le32_injective(a.guest_svn, b.guest_svn);
    lemma_le64_injective(a.policy.0, b.policy.0);
    assert(a.family_id =~= b.family_id);
    assert(a.image_id =~= b.image_id);
    lemma_le32_injective(a.vmpl, b.vmpl);
    lemma_le32_injective(a.sig_algo, b.sig_algo);
    lemma_tcb_injective(a.current_tcb, b.current_tcb);
    lemma_le64_injective(a.plat_info.0, b.plat_info.0);
    lemma_le32_injective(a.key_info.0, b.key_info.0);
    lemma_le32_injective(a.reserved_0, b.reserved_0);
    assert(a.report_data =~= b.report_data);
    assert(a.measurement =~= b.measurement);
    assert(a.host_data =~= b.host_data);
    assert(a.id_key_digest =~= b.id_key_digest);
    assert(a.author_key_digest =~= b.author_key_digest);
    assert(a.report_id =~= b.report_id);
    assert(a.report_id_ma =~= b.report_id_ma);
    lemma_tcb_injective(a.reported_tcb, b.reported_tcb);
    assert(a.reserved_1 =~= b.reserved_1);
    assert(a.chip_id =~= b.chip_id);
    lemma_tcb_injective(a.committed_tcb, b.committed_tcb);
    assert(seq![a.current_build][0] == seq![b.current_build][0]);
    assert(seq![a.current_minor][0] == seq![b.current_minor][0]);
    assert(seq![a.current_major][0] == seq![b.current_major][0]);
    assert(seq![a.reserved_2][0] == seq![b.reserved_2][0]);
    assert(seq![a.committed_build][0] == seq![b.committed_build][0]);
    assert(seq![a.committed_minor][0] == seq![b.committed_minor][0]);
    assert(seq![a.committed_major][0] == seq![b.committed_major][0]);
    assert(seq![a.reserved_3][0] == seq![b.reserved_3][0]);
    lemma_tcb_injective(a.launch_tcb, b.launch_tcb);
    assert(a.reserved_4 =~= b.reserved_4);
    lemma_signature_injective(a.signature, b.signature);
}

/// A version 3 attestation report, the layout of firmware from ABI 1.56
/// on: it adds the CPUID fields, taken from the reserved run that follows
/// the reported TCB, and the alias-check bit of the platform information.
#[derive(Debug, Clone, Copy, PartialEq, Eq)]
pub struct AttestationReportV3 {
    /// Version number of the report layout.
    pub version: u32,
    /// The guest SVN.
    pub guest_svn: u32,
    /// The guest policy.
    pub policy: GuestPolicy,
    /// The family ID provided at launch.
    pub family_id: [u8; 16],
    /// The image ID provided at launch.
    pub image_id: [u8; 16],
    /// The VMPL the report was requested for.
    pub vmpl: u32,
    /// The algorithm that signed the report.
    pub sig_algo: u32,
    /// The current TCB.
    pub current_tcb: TcbVersion,
    /// Information about the platform.
    pub plat_info: PlatformInfoV2,
    /// Which key signed the report.
    pub key_info: KeyInfo,
    /// Reserved.
    pub reserved_0: u32,
    /// Data the guest supplied with the request.
    pub report_data: [u8; 64],
    /// The measurement calculated at launch.
    pub measurement: [u8; 48],
    /// Data the hypervisor provided at launch.
    pub host_data: [u8; 32],
    /// SHA-384 digest of the ID public key that signed the ID block.
    pub id_key_digest: [u8; 48],
    /// SHA-384 digest of the author key that certified the ID key.
    pub author_key_digest: [u8; 48],
    /// Report ID of this guest.
    pub report_id: [u8; 32],
    /// Report ID of this guest's migration agent.
    pub report_id_ma: [u8; 32],
    /// The TCB version used to derive the key that signed the report.
    pub reported_tcb: TcbVersion,
    /// CPUID family (extended family and family combined).
    pub cpuid_fam_id: u8,
    /// CPUID model (extended model and model combined).
    pub cpuid_mod_id: u8,
    /// CPUID stepping.
    pub cpuid_step: u8,
    /// Reserved.
    pub reserved_1: [u8; 21],
    /// Identifier unique to the chip, or zeros if it is masked.
    pub chip_id: [u8; 64],
    /// The committed TCB.
    pub committed_tcb: TcbVersion,
    /// Build number of the current firmware version.
    pub current_build: u8,
    /// Minor number of the current firmware version.
    pub current_minor: u8,
    /// Major number of the current firmware version.
    pub current_major: u8,
    /// Reserved.
    pub reserved_2: u8,
    /// Build number of the committed firmware version.
    pub committed_build: u8,
    /// Minor number of the committed firmware version.
    pub committed_minor: u8,
    /// Major number of the committed firmware version.
    pub committed_major: u8,
    /// Reserved.
    pub reserved_3: u8,
    /// The current TCB when the guest was launched or imported.
    pub launch_tcb: TcbVersion,
    /// Reserved.
    pub reserved_4: [u8; 168],
    /// Signature over bytes 0 to 0x29F of the report.
    pub signature: Signature,
}

/// The wire form of a version 3 report: every field at its fixed
/// offset, little-endian, with no padding.
pub open spec fn report_v3_bytes(r: AttestationReportV3) -> Seq<u8> {
    le32(r.version)
        + le32(r.guest_svn)
        + le64(r.policy.0)
        + r.family_id@
        + r.image_id@
        + le32(r.vmpl)
        + le32(r.sig_algo)
        + tcb_bytes(r.current_tcb)
        + le64(r.plat_info.0)
        + le32(r.key_info.0)
        + le32(r.reserved_0)
        + r.report_data@
        + r.measurement@
        + r.host_data@
        + r.id_key_digest@
        + r.author_key_digest@
        + r.report_id@
        + r.report_id_ma@
        + tcb_bytes(r.reported_tcb)
        + seq![r.cpuid_fam_id]
        + seq![r.cpuid_mod_id]
        + seq![r.cpuid_step]
        + r.reserved_1@
        + r.chip_id@
        + tcb_bytes(r.committed_tcb)
        + seq![r.current_build]
        + seq![r.current_minor]
        + seq![r.current_major]
        + seq![r.reserved_2]
        + seq![r.committed_build]
        + seq![r.committed_minor]
        + seq![r.committed_major]
        + seq![r.reserved_3]
        + tcb_bytes(r.launch_tcb)
        + r.reserved_4@
        + signature_bytes(r.signature)
}

impl AttestationReportV3 {
    /// Decodes a version 3 report from the first `REPORT_SIZE` bytes of
    /// `bytes`; later bytes are ignored. The version word is not checked.
    pub fn from_bytes(bytes: &[u8]) -> (res: Result<Self, AttestationReportError>)
        ensures
            match res {
                Ok(r) => bytes@.len() >= REPORT_SIZE && report_v3_bytes(r) == bytes@.subrange(
                    0,
                    REPORT_SIZE as int,
                ),
                Err(e) => bytes@.len() < REPORT_SIZE && e == AttestationReportError::Truncated {
                    expected: REPORT_SIZE,
                    actual: bytes@.len() as usize,
                },
            },
    {
        if bytes.len() < REPORT_SIZE {
            return Err(AttestationReportError::Truncated { expected: REPORT_SIZE, actual: bytes.len() });
        }
        let b = bytes;
        let ghost mut done: Seq<u8> = Seq::empty();
        proof {
            assert(done =~= b@.subrange(0, 0));
        }
        let version = read_u32(b, 0, Ghost(done));
        proof {
            assert(Seq::<u8>::empty() + le32(version) =~= le32(version));
            done = le32(version);
        }
        let guest_svn = read_u32(b, 4, Ghost(done));
        proof {
            done = done + le32(guest_svn);
        }
        let policy_word = read_u64(b, 8, Ghost(done));
        proof {
            done = done + le64(policy_word);
        }
        let family_id = read_array::<16>(b, 16, Ghost(done));
        proof {
            done = done + family_id@;
        }
        let image_id = read_array::<16>(b, 32, Ghost(done));
        proof {
            done = done + image_id@;
        }
        let vmpl = read_u32(b, 48, Ghost(done));
        proof {
            done = done + le32(vmpl);
        }
        let sig_algo = read_u32(b, 52, Ghost(done));
        proof {
            done = done + le32(sig_algo);
        }
        let current_tcb = read_tcb(b, 56, Ghost(done));
        proof {
            done = done + tcb_bytes(current_tcb);
        }
        let plat_info_word = read_u64(b, 64, Ghost(done));
        proof {
            done = done + le64(plat_info_word);
        }
        let key_info_word = read_u32(b, 72, Ghost(done));
        proof {
            done = done + le32(key_info_word);
        }
        let reserved_0 = read_u32(b, 76, Ghost(done));
        proof {
            done = done + le32(reserved_0);
        }
        let report_data = read_array::<64>(b, 80, Ghost(done));
        proof {
            done = done + report_data@;
        }
        let measurement = read_array::<48>(b, 144, Ghost(done));
        proof {
            done = done + measurement@;
        }
        let host_data = read_array::<32>(b, 192, Ghost(done));
        proof {
            done = done + host_data@;
        }
        let id_key_digest = read_array::<48>(b, 224, Ghost(done));
        proof {
            done = done + id_key_digest@;
        }
        let author_key_digest = read_array::<48>(b, 272, Ghost(done));
        proof {
            done = done + author_key_digest@;
        }
        let report_id = read_array::<32>(b, 320, Ghost(done));
        proof {
            done = done + report_id@;
        }
        let report_id_ma = read_array::<32>(b, 352, Ghost(done));
        proof {
            done = done + report_id_ma@;
        }
        let reported_tcb = read_tcb(b, 384, Ghost(done));
        proof {
            done = done + tcb_bytes(reported_tcb);
        }
        let cpuid_fam_id = read_u8(b, 392, Ghost(done));
        proof {
            done = done + seq![cpuid_fam_id];
        }
        let cpuid_mod_id = read_u8(b, 393, Ghost(done));
        proof {
            done = done + seq![cpuid_mod_id];
        }
        let cpuid_step = read_u8(b, 394, Ghost(done));
        proof {
            done = done + seq![cpuid_step];
        }
        let reserved_1 = read_array::<21>(b, 395, Ghost(done));
        proof {
            done = done + reserved_1@;
        }
        let chip_id = read_array::<64>(b, 416, Ghost(done));
        proof {
            done = done + chip_id@;
        }
        let committed_tcb = read_tcb(b, 480, Ghost(done));
        proof {
            done = done + tcb_bytes(committed_tcb);
        }
        let current_build = read_u8(b, 488, Ghost(done));
        proof {
            done = done + seq![current_build];
        }
        let current_minor = read_u8(b, 489, Ghost(done));
        proof {
            done = done + seq![current_minor];
        }
        let current_major = read_u8(b, 490, Ghost(done));
        proof {
            done = done + seq![current_major];
        }
        let reserved_2 = read_u8(b, 491, Ghost(done));
        proof {
            done = done + seq![reserved_2];
        }
        let committed_build = read_u8(b, 492, Ghost(done));
        proof {
            done = done + seq![committed_build];
        }
        let committed_minor = read_u8(b, 493, Ghost(done));
        proof {
            done = done + seq![committed_minor];
        }
        let committed_major = read_u8(b, 494, Ghost(done));
        proof {
            done = done + seq![committed_major];
        }
        let reserved_3 = read_u8(b, 495, Ghost(done));
        proof {
            done = done + seq![reserved_3];
        }
        let launch_tcb = read_tcb(b, 496, Ghost(done));
        proof {
            done = done + tcb_bytes(launch_tcb);
        }
        let reserved_4 = read_array::<168>(b, 504, Ghost(done));
        proof {
            done = done + reserved_4@;
        }
        let signature = read_signature(b, 672, Ghost(done));
        proof {
            done = done + signature_bytes(signature);
        }
        let r = AttestationReportV3 {
            version,
            guest_svn,
            policy: GuestPolicy(policy_word),
            family_id,
            image_id,
            vmpl,
            sig_algo,
            current_tcb,
            plat_info: PlatformInfoV2(plat_info_word),
            key_info: KeyInfo(key_info_word),
            reserved_0,
            report_data,
            measurement,
            host_data,
            id_key_digest,
            author_key_digest,
            report_id,
            report_id_ma,
            reported_tcb,
            cpuid_fam_id,
            cpuid_mod_id,
            cpuid_step,
            reserved_1,
            chip_id,
            committed_tcb,
            current_build,
            current_minor,
            current_major,
            reserved_2,
            committed_build,
            committed_minor,
            committed_major,
            reserved_3,
            launch_tcb,
            reserved_4,
            signature,
        };
        proof {
            assert(report_v3_bytes(r) == done);
        }
        Ok(r)
    }

    /// The wire form of the report.
    pub fn to_bytes(&self) -> (out: Vec<u8>)
        ensures
            out@ == report_v3_bytes(*self),
            out@.len() == REPORT_SIZE,
    {
        let mut out: Vec<u8> = Vec::with_capacity(REPORT_SIZE);
        push_u32(&mut out, self.version);
        proof {
            assert(out@ =~= le32(self.version));
        }
        push_u32(&mut out, self.guest_svn);
        push_u64(&mut out, self.policy.0);
        push_bytes(&mut out, self.family_id.as_slice());
        push_bytes(&mut out, self.image_id.as_slice());
        push_u32(&mut out, self.vmpl);
        push_u32(&mut out, self.sig_algo);
        push_tcb(&mut out, &self.current_tcb);
        push_u64(&mut out, self.plat_info.0);
        push_u32(&mut out, self.key_info.0);
        push_u32(&mut out, self.reserved_0);
        push_bytes(&mut out, self.report_data.as_slice());
        push_bytes(&mut out, self.measurement.as_slice());
        push_bytes(&mut out, self.host_data.as_slice());
        push_bytes(&mut out, self.id_key_digest.as_slice());
        push_bytes(&mut out, self.author_key_digest.as_slice());
        push_bytes(&mut out, self.report_id.as_slice());
        push_bytes(&mut out, self.report_id_ma.as_slice());
        push_tcb(&mut out, &self.reported_tcb);
        push_u8(&mut out, self.cpuid_fam_id);
        push_u8(&mut out, self.cpuid_mod_id);
        push_u8(&mut out, self.cpuid_step);
        push_bytes(&mut out, self.reserved_1.as_slice());
        push_bytes(&mut out, self.chip_id.as_slice());
        push_tcb(&mut out, &self.committed_tcb);
        push_u8(&mut out, self.current_build);
        push_u8(&mut out, self.current_minor);
        push_u8(&mut out, self.current_major);
        push_u8(&mut out, self.reserved_2);
        push_u8(&mut out, self.committed_build);
        push_u8(&mut out, self.committed_minor);
        push_u8(&mut out, self.committed_major);
        push_u8(&mut out, self.reserved_3);
        push_tcb(&mut out, &self.launch_tcb);
        push_bytes(&mut out, self.reserved_4.as_slice());
        push_signature(&mut out, &self.signature);
        proof {
            lemma_report_v3_len(*self);
        }
        out
    }

    /// The part of the wire form that the signature covers.
    pub fn measurable_bytes(&self) -> (out: Vec<u8>)
        ensures
            out@ == report_v3_bytes(*self).subrange(0, MEASURABLE_SIZE as int),
    {
        let mut out = self.to_bytes();
        out.truncate(MEASURABLE_SIZE);
        out
    }

    /// The signature carried at the end of the report.
    pub fn signature(&self) -> (r: &Signature)
        ensures
            *r == self.signature,
    {
        &self.signature
    }
}

/// A version 3 report occupies exactly `REPORT_SIZE` bytes.
pub proof fn lemma_report_v3_len(r: AttestationReportV3)
    ensures
        report_v3_bytes(r).len() == REPORT_SIZE,
{
}

/// Two version 3 reports with the same wire form are the same report.
#[verifier::rlimit(50)]
pub proof fn lemma_report_v3_injective(a: AttestationReportV3, b: AttestationReportV3)
    requires
        report_v3_bytes(a) == report_v3_bytes(b),
    ensures
        a == b,
{
    lemma_concat_split_all();
    lemma_le32_injective(a.version, b.version);
    lemma_le32_injective(a.guest_svn, b.guest_svn);
    lemma_le64_injective(a.policy.0, b.policy.0);
    assert(a.family_id =~= b.family_id);
    assert(a.image_id =~= b.image_id);
    lemma_le32_injective(a.vmpl, b.vmpl);
    lemma_le32_injective(a.sig_algo, b.sig_algo);
    lemma_tcb_injective(a.current_tcb, b.current_tcb);
    lemma_le64_injective(a.plat_info.0, b.plat_info.0);
    lemma_le32_injective(a.key_info.0, b.key_info.0);
    lemma_le32_injective(a.reserved_0, b.reserved_0);
    assert(a.report_data =~= b.report_data);
    assert(a.measurement =~= b.measurement);
    assert(a.host_data =~= b.host_data);
    assert(a.id_key_digest =~= b.id_key_digest);
    assert(a.author_key_digest =~= b.author_key_digest);
    assert(a.report_id =~= b.report_id);
    assert(a.report_id_ma =~= b.report_id_ma);
    lemma_tcb_injective(a.reported_tcb, b.reported_tcb);
    assert(seq![a.cpuid_fam_id][0] == seq![b.cpuid_fam_id][0]);
    assert(seq![a.cpuid_mod_id][0] == seq![b.cpuid_mod_id][0]);
    assert(seq![a.cpuid_step][0] == seq![b.cpuid_step][0]);
    assert(a.reserved_1 =~= b.reserved_1);
    assert(a.chip_id =~= b.chip_id);
    lemma_tcb_injective(a.committed_tcb, b.committed_tcb);
    assert(seq![a.current_build][0] == seq![b.current_build][0]);
    assert(seq![a.current_minor][0] == seq![b.current_minor][0]);
    assert(seq![a.current_major][0] == seq![b.current_major][0]);
    assert(seq![a.reserved_2][0] == seq![b.reserved_2][0]);
    assert(seq![a.committed_build][0] == seq![b.committed_build][0]);
    assert(seq![a.committed_minor][0] == seq![b.committed_minor][0]);
    assert(seq![a.committed_major][0] == seq![b.committed_major][0]);
    assert(seq![a.reserved_3][0] == seq![b.reserved_3][0]);
    lemma_tcb_injective(a.launch_tcb, b.launch_tcb);
    assert(a.reserved_4 =~= b.reserved_4);
    lemma_signature_injective(a.signature, b.signature);
}

/// `n` zero bytes.
pub open spec fn zeros(n: nat) -> Seq<u8> {
    Seq::new(n, |i: int| 0u8)
}

proof fn lemma_zeros_concat()
    ensures
        forall|a: nat, b: nat| #[trigger] (zeros(a) + zeros(b)) == zeros(a + b),
{
    assert forall|a: nat, b: nat| #[trigger] (zeros(a) + zeros(b)) == zeros(a + b) by {
        assert(zeros(a) + zeros(b) =~= zeros(a + b));
    }
}

proof fn lemma_zero_pieces()
    ensures
        le32(0) == zeros(4),
        le64(0) == zeros(8),
        seq![0u8] == zeros(1),
{
    assert((0u32 >> 8u32) as u8 == 0 && (0u32 >> 16u32) as u8 == 0 && (0u32 >> 24u32) as u8 == 0)
        by (bit_vector);
    assert((0u64 >> 8u64) as u8 == 0 && (0u64 >> 16u64) as u8 == 0 && (0u64 >> 24u64) as u8 == 0
        && (0u64 >> 32u64) as u8 == 0 && (0u64 >> 40u64) as u8 == 0 && (0u64 >> 48u64) as u8 == 0
        && (0u64 >> 56u64) as u8 == 0) by (bit_vector);
    assert(le32(0) =~= zeros(4));
    assert(le64(0) =~= zeros(8));
    assert(seq![0u8] =~= zeros(1));
}

impl Default for TcbVersion {
    fn default() -> (r: TcbVersion)
        ensures
            tcb_bytes(r) == zeros(8),
    {
        let r = TcbVersion { bootloader: 0, tee: 0, reserved: [0u8; 4], snp: 0, microcode: 0 };
        assert(tcb_bytes(r) =~= zeros(8));
        r
    }
}

impl Default for Signature {
    fn default() -> (r: Signature)
        ensures
            signature_bytes(r) == zeros(512),
    {
        let r = Signature { r: [0u8; 72], s: [0u8; 72], reserved: [0u8; 368] };
        assert(signature_bytes(r) =~= zeros(512));
        r
    }
}

impl Default for AttestationReportV2 {
    fn default() -> (r: AttestationReportV2)
        ensures
            report_v2_bytes(r) == zeros(REPORT_SIZE as nat),
    {
        let r = AttestationReportV2 {
            version: 0,
            guest_svn: 0,
            policy: GuestPolicy(0),
            family_id: [0u8; 16],
            image_id: [0u8; 16],
            vmpl: 0,
            sig_algo: 0,
            current_tcb: TcbVersion::default(),
            plat_info: PlatformInfoV1(0),
            key_info: KeyInfo(0),
            reserved_0: 0,
            report_data: [0u8; 64],
            measurement: [0u8; 48],
            host_data: [0u8; 32],
            id_key_digest: [0u8; 48],
            author_key_digest: [0u8; 48],
            report_id: [0u8; 32],
            report_id_ma: [0u8; 32],
            reported_tcb: TcbVersion::default(),
            reserved_1: [0u8; 24],
            chip_id: [0u8; 64],
            committed_tcb: TcbVersion::default(),
            current_build: 0,
            current_minor: 0,
            current_major: 0,
            reserved_2: 0,
            committed_build: 0,
            committed_minor: 0,
            committed_major: 0,
            reserved_3: 0,
            launch_tcb: TcbVersion::default(),
            reserved_4: [0u8; 168],
            signature: Signature::default(),
        };
        proof {
            lemma_zero_pieces();
            lemma_zeros_concat();
            assert(report_v2_bytes(r) =~= zeros(REPORT_SIZE as nat));
        }
        r
    }
}

impl Default for AttestationReportV3 {
    fn default() -> (r: AttestationReportV3)
        ensures
            report_v3_bytes(r) == zeros(REPORT_SIZE as nat),
    {
        let r = AttestationReportV3 {
            version: 0,
            guest_svn: 0,
            policy: GuestPolicy(0),
            family_id: [0u8; 16],
            image_id: [0u8; 16],
            vmpl: 0,
            sig_algo: 0,
            current_tcb: TcbVersion::default(),
            plat_info: PlatformInfoV2(0),
            key_info: KeyInfo(0),
            reserved_0: 0,
            report_data: [0u8; 64],
            measurement: [0u8; 48],
            host_data: [0u8; 32],
            id_key_digest: [0u8; 48],
            author_key_digest: [0u8; 48],
            report_id: [0u8; 32],
            report_id_ma: [0u8; 32],
            reported_tcb: TcbVersion::default(),
            cpuid_fam_id: 0,
            cpuid_mod_id: 0,
            cpuid_step: 0,
            reserved_1: [0u8; 21],
            chip_id: [0u8; 64],
            committed_tcb: TcbVersion::default(),
            current_build: 0,
            current_minor: 0,
            current_major: 0,
            reserved_2: 0,
            committed_build: 0,
            committed_minor: 0,
            committed_major: 0,
            reserved_3: 0,
            launch_tcb: TcbVersion::default(),
            reserved_4: [0u8; 168],
            signature: Signature::default(),
        };
        proof {
            lemma_zero_pieces();
            lemma_zeros_concat();
            assert(report_v3_bytes(r) =~= zeros(REPORT_SIZE as nat));
        }
        r
    }
}

/// A report of either layout version.
#[derive(Debug, Clone, Copy, PartialEq, Eq)]
pub enum AttestationReport {
    /// A version 2 report.
    V2(AttestationReportV2),
    /// A version 3 report.
    V3(AttestationReportV3),
}

/// The wire form of a report.
pub open spec fn report_bytes(r: AttestationReport) -> Seq<u8> {
    match r {
        AttestationReport::V2(x) => report_v2_bytes(x),
        AttestationReport::V3(x) => report_v3_bytes(x),
    }
}

/// The part of a report's wire form that the signature covers.
pub open spec fn measurable(r: AttestationReport) -> Seq<u8> {
    report_bytes(r).subrange(0, MEASURABLE_SIZE as int)
}

/// The version word at the start of a buffer.
pub open spec fn version_word(bytes: Seq<u8>) -> u32 {
    u32_from_le(bytes.subrange(0, 4))
}

/// `res` is what decoding `bytes` gives: a buffer too short for the
/// version word or for its layout is truncated, a version other than 2
/// or 3 is unsupported, and otherwise the report of that version whose
/// wire form is the buffer's first `REPORT_SIZE` bytes.
pub open spec fn decoded_as(
    bytes: Seq<u8>,
    res: Result<AttestationReport, AttestationReportError>,
) -> bool {
    if bytes.len() < 4 {
        res == Err::<AttestationReport, _>(
            AttestationReportError::Truncated { expected: 4, actual: bytes.len() as usize },
        )
    } else if version_word(bytes) != 2 && version_word(bytes) != 3 {
        res == Err::<AttestationReport, _>(
            AttestationReportError::UnsupportedReportVersion(version_word(bytes)),
        )
    } else if bytes.len() < REPORT_SIZE {
        res == Err::<AttestationReport, _>(
            AttestationReportError::Truncated { expected: REPORT_SIZE, actual: bytes.len() as usize },
        )
    } else {
        match res {
            Ok(r) => (if version_word(bytes) == 2 {
                r is V2
            } else {
                r is V3
            }) && report_bytes(r) == bytes.subrange(0, REPORT_SIZE as int),
            Err(_) => false,
        }
    }
}

impl AttestationReport {
    /// Decodes a report, choosing the layout by the version word in its
    /// first four bytes. Bytes past the layout's end are ignored.
    pub fn from_bytes(bytes: &[u8]) -> (res: Result<Self, AttestationReportError>)
        ensures
            decoded_as(bytes@, res),
    {
        if bytes.len() < 4 {
            return Err(AttestationReportError::Truncated { expected: 4, actual: bytes.len() });
        }
        proof {
            assert(Seq::<u8>::empty() =~= bytes@.subrange(0, 0));
        }
        let version = read_u32(bytes, 0, Ghost(Seq::empty()));
        if version == 2 {
            match AttestationReportV2::from_bytes(bytes) {
                Ok(r) => Ok(AttestationReport::V2(r)),
                Err(e) => Err(e),
            }
        } else if version == 3 {
            match AttestationReportV3::from_bytes(bytes) {
                Ok(r) => Ok(AttestationReport::V3(r)),
                Err(e) => Err(e),
            }
        } else {
            Err(AttestationReportError::UnsupportedReportVersion(version))
        }
    }

    /// The wire form of the report.
    pub fn to_bytes(&self) -> (out: Vec<u8>)
        ensures
            out@ == report_bytes(*self),
            out@.len() == REPORT_SIZE,
    {
        match self {
            AttestationReport::V2(r) => r.to_bytes(),
            AttestationReport::V3(r) => r.to_bytes(),
        }
    }

    /// The part of the wire form that the signature covers: its first
    /// `MEASURABLE_SIZE` bytes, which end where the signature begins.
    pub fn measurable_bytes(&self) -> (out: Vec<u8>)
        ensures
            out@ == measurable(*self),
            out@.len() == MEASURABLE_SIZE,
    {
        match self {
            AttestationReport::V2(r) => r.measurable_bytes(),
            AttestationReport::V3(r) => r.measurable_bytes(),
        }
    }

    /// The signature carried at the end of the report.
    pub fn signature(&self) -> (r: &Signature)
        ensures
            *r == match *self {
                AttestationReport::V2(x) => x.signature,
                AttestationReport::V3(x) => x.signature,
            },
    {
        match self {
            AttestationReport::V2(r) => &r.signature,
            AttestationReport::V3(r) => &r.signature,
        }
    }

    /// The report layout version.
    pub fn version(&self) -> (r: u32)
        ensures
            r == match *self {
                AttestationReport::V2(x) => x.version,
                AttestationReport::V3(x) => x.version,
            },
    {
        match self {
            AttestationReport::V2(report) => report.version,
            AttestationReport::V3(report) => report.version,
        }
    }

    /// The guest SVN.
    pub fn guest_svn(&self) -> (r: u32)
        ensures
            r == match *self {
                AttestationReport::V2(x) => x.guest_svn,
                AttestationReport::V3(x) => x.guest_svn,
            },
    {
        match self {
            AttestationReport::V2(report) => report.guest_svn,
            AttestationReport::V3(report) => report.guest_svn,
        }
    }

    /// The guest policy.
    pub fn policy(&self) -> (r: GuestPolicy)
        ensures
            r == match *self {
                AttestationReport::V2(x) => x.policy,
                AttestationReport::V3(x) => x.policy,
            },
    {
        match self {
            AttestationReport::V2(report) => report.policy,
            AttestationReport::V3(report) => report.policy,
        }
    }

    /// The family ID provided at launch.
    pub fn family_id(&self) -> (r: [u8; 16])
        ensures
            r == match *self {
                AttestationReport::V2(x) => x.family_id,
                AttestationReport::V3(x) => x.family_id,
            },
    {
        match self {
            AttestationReport::V2(report) => report.family_id,
            AttestationReport::V3(report) => report.family_id,
        }
    }

    /// The image ID provided at launch.
    pub fn image_id(&self) -> (r: [u8; 16])
        ensures
            r == match *self {
                AttestationReport::V2(x) => x.image_id,
                AttestationReport::V3(x) => x.image_id,
            },
    {
        match self {
            AttestationReport::V2(report) => report.image_id,
            AttestationReport::V3(report) => report.image_id,
        }
    }

    /// The VMPL the report was requested for.
    pub fn vmpl(&self) -> (r: u32)
        ensures
            r == match *self {
                AttestationReport::V2(x) => x.vmpl,
                AttestationReport::V3(x) => x.vmpl,
            },
    {
        match self {
            AttestationReport::V2(report) => report.vmpl,
            AttestationReport::V3(report) => report.vmpl,
        }
    }

    /// The algorithm that signed the report.
    pub fn sig_algo(&self) -> (r: u32)
        ensures
            r == match *self {
                AttestationReport::V2(x) => x.sig_algo,
                AttestationReport::V3(x) => x.sig_algo,
            },
    {
        match self {
            AttestationReport::V2(report) => report.sig_algo,
            AttestationReport::V3(report) => report.sig_algo,
        }
    }

    /// The current TCB.
    pub fn current_tcb(&self) -> (r: TcbVersion)
        ensures
            r == match *self {
                AttestationReport::V2(x) => x.current_tcb,
                AttestationReport::V3(x) => x.current_tcb,
            },
    {
        match self {
            AttestationReport::V2(report) => report.current_tcb,
            AttestationReport::V3(report) => report.current_tcb,
        }
    }

    /// Which key signed the report.
    pub fn key_info(&self) -> (r: KeyInfo)
        ensures
            r == match *self {
                AttestationReport::V2(x) => x.key_info,
                AttestationReport::V3(x) => x.key_info,
            },
    {
        match self {
            AttestationReport::V2(report) => report.key_info,
            AttestationReport::V3(report) => report.key_info,
        }
    }

    /// The data the guest supplied with the request.
    pub fn report_data(&self) -> (r: [u8; 64])
        ensures
            r == match *self {
                AttestationReport::V2(x) => x.report_data,
                AttestationReport::V3(x) => x.report_data,
            },
    {
        match self {
            AttestationReport::V2(report) => report.report_data,
            AttestationReport::V3(report) => report.report_data,
        }
    }

    /// The measurement calculated at launch.
    pub fn measurement(&self) -> (r: [u8; 48])
        ensures
            r == match *self {
                AttestationReport::V2(x) => x.measurement,
                AttestationReport::V3(x) => x.measurement,
            },
    {
        match self {
            AttestationReport::V2(report) => report.measurement,
            AttestationReport::V3(report) => report.measurement,
        }
    }

    /// The data the hypervisor provided at launch.
    pub fn host_data(&self) -> (r: [u8; 32])
        ensures
            r == match *self {
                AttestationReport::V2(x) => x.host_data,
                AttestationReport::V3(x) => x.host_data,
            },
    {
        match self {
            AttestationReport::V2(report) => report.host_data,
            AttestationReport::V3(report) => report.host_data,
        }
    }

    /// SHA-384 digest of the ID public key that signed the ID block.
    pub fn id_key_digest(&self) -> (r: [u8; 48])
        ensures
            r == match *self {
                AttestationReport::V2(x) => x.id_key_digest,
                AttestationReport::V3(x) => x.id_key_digest,
            },
    {
        match self {
            AttestationReport::V2(report) => report.id_key_digest,
            AttestationReport::V3(report) => report.id_key_digest,
        }
    }

    /// SHA-384 digest of the author key that certified the ID key.
    pub fn author_key_digest(&self) -> (r: [u8; 48])
        ensures
            r == match *self {
                AttestationReport::V2(x) => x.author_key_digest,
                AttestationReport::V3(x) => x.author_key_digest,
            },
    {
        match self {
            AttestationReport::V2(report) => report.author_key_digest,
            AttestationReport::V3(report) => report.author_key_digest,
        }
    }

    /// The report ID of this guest.
    pub fn report_id(&self) -> (r: [u8; 32])
        ensures
            r == match *self {
                AttestationReport::V2(x) => x.report_id,
                AttestationReport::V3(x) => x.report_id,
            },
    {
        match self {
            AttestationReport::V2(report) => report.report_id,
            AttestationReport::V3(report) => report.report_id,
        }
    }

    /// The report ID of this guest's migration agent.
    pub fn report_id_ma(&self) -> (r: [u8; 32])
        ensures
            r == match *self {
                AttestationReport::V2(x) => x.report_id_ma,
                AttestationReport::V3(x) => x.report_id_ma,
            },
    {
        match self {
            AttestationReport::V2(report) => report.report_id_ma,
            AttestationReport::V3(report) => report.report_id_ma,
        }
    }

    /// The TCB version used to derive the key that signed the report.
    pub fn reported_tcb(&self) -> (r: TcbVersion)
        ensures
            r == match *self {
                AttestationReport::V2(x) => x.reported_tcb,
                AttestationReport::V3(x) => x.reported_tcb,
            },
    {
        match self {
            AttestationReport::V2(report) => report.reported_tcb,
            AttestationReport::V3(report) => report.reported_tcb,
        }
    }

    /// The chip identifier, or zeros if it is masked.
    pub fn chip_id(&self) -> (r: [u8; 64])
        ensures
            r == match *self {
                AttestationReport::V2(x) => x.chip_id,
                AttestationReport::V3(x) => x.chip_id,
            },
    {
        match self {
            AttestationReport::V2(report) => report.chip_id,
            AttestationReport::V3(report) => report.chip_id,
        }
    }

    /// The committed TCB.
    pub fn commited_tcb(&self) -> (r: TcbVersion)
        ensures
            r == match *self {
                AttestationReport::V2(x) => x.committed_tcb,
                AttestationReport::V3(x) => x.committed_tcb,
            },
    {
        match self {
            AttestationReport::V2(report) => report.committed_tcb,
            AttestationReport::V3(report) => report.committed_tcb,
        }
    }

    /// The current TCB when the guest was launched or imported.
    pub fn launch_tcb(&self) -> (r: TcbVersion)
        ensures
            r == match *self {
                AttestationReport::V2(x) => x.launch_tcb,
                AttestationReport::V3(x) => x.launch_tcb,
            },
    {
        match self {
            AttestationReport::V2(report) => report.launch_tcb,
            AttestationReport::V3(report) => report.launch_tcb,
        }
    }

    /// The platform information, in the layout of the report's version.
    pub fn plat_info(&self) -> (r: PlatformInfo)
        ensures
            r == match *self {
                AttestationReport::V2(x) => PlatformInfo::V1(x.plat_info),
                AttestationReport::V3(x) => PlatformInfo::V2(x.plat_info),
            },
    {
        match self {
            AttestationReport::V2(report) => PlatformInfo::V1(report.plat_info),
            AttestationReport::V3(report) => PlatformInfo::V2(report.plat_info),
        }
    }

    /// The CPUID family, model and stepping; only version 3 reports carry
    /// them.
    pub fn cpuid(&self) -> (r: Result<(u8, u8, u8), AttestationReportError>)
        ensures
            match *self {
                AttestationReport::V2(_) => r matches Err(
                    AttestationReportError::UnsupportedField(name),
                ) && name@ == "cpuid information"@,
                AttestationReport::V3(x) => r == Ok::<(u8, u8, u8), AttestationReportError>(
                    (x.cpuid_fam_id, x.cpuid_mod_id, x.cpuid_step),
                ),
            },
    {
        match self {
            AttestationReport::V2(_) => {
                let name = "cpuid information".to_owned();
                proof {
                    reveal_strlit("cpuid information");
                }
                Err(AttestationReportError::UnsupportedField(name))
            },
            AttestationReport::V3(report) => Ok(
                (report.cpuid_fam_id, report.cpuid_mod_id, report.cpuid_step),
            ),
        }
    }

    /// The current firmware version as (major, minor, build).
    pub fn current_version(&self) -> (r: (u8, u8, u8))
        ensures
            r == match *self {
                AttestationReport::V2(x) => (x.current_major, x.current_minor, x.current_build),
                AttestationReport::V3(x) => (x.current_major, x.current_minor, x.current_build),
            },
    {
        match self {
            AttestationReport::V2(report) => (
                report.current_major,
                report.current_minor,
                report.current_build,
            ),
            AttestationReport::V3(report) => (
                report.current_major,
                report.current_minor,
                report.current_build,
            ),
        }
    }

    /// The committed firmware version as (major, minor, build).
    pub fn commited_version(&self) -> (r: (u8, u8, u8))
        ensures
            r == match *self {
                AttestationReport::V2(x) => (x.committed_major, x.committed_minor, x.committed_build),
                AttestationReport::V3(x) => (x.committed_major, x.committed_minor, x.committed_build),
            },
    {
        match self {
            AttestationReport::V2(report) => (
                report.committed_major,
                report.committed_minor,
                report.committed_build,
            ),
            AttestationReport::V3(report) => (
                report.committed_major,
                report.committed_minor,
                report.committed_build,
            ),
        }
    }
}

/// The version word of a report's wire form.
pub open spec fn report_version(r: AttestationReport) -> u32 {
    match r {
        AttestationReport::V2(x) => x.version,
        AttestationReport::V3(x) => x.version,
    }
}

/// Decoding then encoding gives back the buffer's first `REPORT_SIZE`
/// bytes, whatever they held, reserved bytes included.
pub proof fn lemma_round_trip(bytes: Seq<u8>, r: AttestationReport)
    requires
        decoded_as(bytes, Ok(r)),
    ensures
        bytes.len() >= REPORT_SIZE,
        report_bytes(r) == bytes.subrange(0, REPORT_SIZE as int),
        report_version(r) == version_word(bytes),
{
    lemma_report_len(r);
    lemma_version_of_bytes(r);
    assert(report_bytes(r).subrange(0, 4) =~= bytes.subrange(0, 4));
}

/// A report occupies exactly `REPORT_SIZE` bytes.
pub proof fn lemma_report_len(r: AttestationReport)
    ensures
        report_bytes(r).len() == REPORT_SIZE,
{
    match r {
        AttestationReport::V2(x) => lemma_report_v2_len(x),
        AttestationReport::V3(x) => lemma_report_v3_len(x),
    }
}

/// The first four bytes of a report's wire form hold its version word.
pub proof fn lemma_version_of_bytes(r: AttestationReport)
    ensures
        version_word(report_bytes(r)) == report_version(r),
{
    lemma_u32_from_le32(report_version(r));
    match r {
        AttestationReport::V2(x) => assert(report_bytes(r).subrange(0, 4) =~= le32(x.version)),
        AttestationReport::V3(x) => assert(report_bytes(r).subrange(0, 4) =~= le32(x.version)),
    }
}

/// Encoding then decoding gives back the report, when its version word
/// names its own layout.
pub proof fn lemma_decode_of_encode(r: AttestationReport, res: Result<AttestationReport, AttestationReportError>)
    requires
        match r {
            AttestationReport::V2(x) => x.version == 2,
            AttestationReport::V3(x) => x.version == 3,
        },
        decoded_as(report_bytes(r), res),
    ensures
        res == Ok::<AttestationReport, AttestationReportError>(r),
{
    lemma_report_len(r);
    lemma_version_of_bytes(r);
    let b = report_bytes(r);
    assert(b.subrange(0, REPORT_SIZE as int) =~= b);
    match res {
        Ok(r2) => match (r, r2) {
            (AttestationReport::V2(x), AttestationReport::V2(y)) => lemma_report_v2_injective(x, y),
            (AttestationReport::V3(x), AttestationReport::V3(y)) => lemma_report_v3_injective(x, y),
            _ => {},
        },
        Err(_) => {},
    }
}

/// Decoding is deterministic: a buffer decodes to one outcome only.
pub proof fn lemma_decoded_unique(
    bytes: Seq<u8>,
    a: Result<AttestationReport, AttestationReportError>,
    b: Result<AttestationReport, AttestationReportError>,
)
    requires
        decoded_as(bytes, a),
        decoded_as(bytes, b),
    ensures
        a == b,
{
    if bytes.len() >= REPORT_SIZE && (version_word(bytes) == 2 || version_word(bytes) == 3) {
        match (a, b) {
            (Ok(AttestationReport::V2(x)), Ok(AttestationReport::V2(y))) => lemma_report_v2_injective(x, y),
            (Ok(AttestationReport::V3(x)), Ok(AttestationReport::V3(y))) => lemma_report_v3_injective(x, y),
            _ => {},
        }
    }
}

impl<'a> TryFrom<&'a [u8]> for AttestationReport {
    type Error = AttestationReportError;

    fn try_from(raw_report: &'a [u8]) -> Result<Self, AttestationReportError> {
        let res = AttestationReport::from_bytes(raw_report);
        proof {
            let chosen = choose|r: Result<AttestationReport, AttestationReportError>| decoded_as(raw_report@, r);
            lemma_decoded_unique(raw_report@, res, chosen);
        }
        res
    }
}

impl<'a> vstd::std_specs::convert::TryFromSpecImpl<&'a [u8]> for AttestationReport {
    open spec fn obeys_try_from_spec() -> bool {
        true
    }

    open spec fn try_from_spec(v: &'a [u8]) -> Result<AttestationReport, AttestationReportError> {
        choose|r: Result<AttestationReport, AttestationReportError>| decoded_as(v@, r)
    }
}

} // verus!
