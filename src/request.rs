//! The request and response objects that the guest driver exchanges with
//! the secure processor, and the derived-key parameters behind one of them.
use vstd::prelude::*;
use crate::error::UserApiError;
use crate::policy::GuestFieldSelect;
use crate::report::REPORT_SIZE;

verus! {

/// The highest VMPL a report can be requested for.
pub const MAX_VMPL: u32 = 3;

/// The parameters of a derived-key request.
#[derive(Debug, Clone, Copy)]
pub struct DerivedKey {
    /// The root key the key is derived from: 0 the VCEK, 1 the VMRK.
    root_key_select: u32,
    /// Reserved, zero.
    reserved_0: u32,
    /// Which guest data is mixed into the key.
    pub guest_field_select: GuestFieldSelect,
    /// The VMPL mixed into the key; at least the current VMPL.
    pub vmpl: u32,
    /// The guest SVN mixed into the key; at most the SVN given at launch.
    pub guest_svn: u32,
    /// The TCB version mixed into the key; at most the committed TCB.
    pub tcb_version: u64,
    /// The launch mitigation vector mixed into the key, where the
    /// firmware knows of one.
    pub launch_mit_vector: Option<u64>,
}

impl DerivedKey {
    /// The root key selector.
    pub closed spec fn spec_root_key_select(self) -> u32 {
        self.root_key_select
    }

    /// The reserved word.
    pub closed spec fn spec_reserved_0(self) -> u32 {
        self.reserved_0
    }

    /// The selection of guest data.
    pub closed spec fn spec_guest_field_select(self) -> GuestFieldSelect {
        self.guest_field_select
    }

    /// The VMPL.
    pub closed spec fn spec_vmpl(self) -> u32 {
        self.vmpl
    }

    /// The guest SVN.
    pub closed spec fn spec_guest_svn(self) -> u32 {
        self.guest_svn
    }

    /// The TCB version.
    pub closed spec fn spec_tcb_version(self) -> u64 {
        self.tcb_version
    }

    /// The launch mitigation vector, if set.
    pub closed spec fn spec_launch_mit_vector(self) -> Option<u64> {
        self.launch_mit_vector
    }

    /// The parameters of a derived-key request; `root_key_select` picks the
    /// VMRK over the VCEK.
    pub fn new(
        root_key_select: bool,
        guest_field_select: GuestFieldSelect,
        vmpl: u32,
        guest_svn: u32,
        tcb_version: u64,
        launch_mit_vector: Option<u64>,
    ) -> (r: Self)
        ensures
            r.spec_root_key_select() == (if root_key_select { 1u32 } else { 0u32 }),
            r.spec_reserved_0() == 0,
            r.spec_guest_field_select() == guest_field_select,
            r.spec_vmpl() == vmpl,
            r.spec_guest_svn() == guest_svn,
            r.spec_tcb_version() == tcb_version,
            r.spec_launch_mit_vector() == launch_mit_vector,
    {
        DerivedKey {
            root_key_select: if root_key_select { 1 } else { 0 },
            reserved_0: 0,
            guest_field_select,
            vmpl,
            guest_svn,
            tcb_version,
            launch_mit_vector,
        }
    }

    /// The root key selector: 0 the VCEK, 1 the VMRK.
    pub fn get_root_key_select(&self) -> (r: u32)
        ensures
            r == self.spec_root_key_select(),
    {
        self.root_key_select
    }
}

/// A derived-key request as the driver passes it on.
#[derive(Debug, Default)]
pub struct DerivedKeyReq {
    /// The root key the key is derived from: 0 the VCEK, 1 the VMRK.
    pub root_key_select: u32,
    /// Reserved, zero.
    pub reserved_0: u32,
    /// Which guest data is mixed into the key.
    pub guest_field_select: u64,
    /// The VMPL mixed into the key.
    pub vmpl: u32,
    /// The guest SVN mixed into the key.
    pub guest_svn: u32,
    /// The TCB version mixed into the key.
    pub tcb_version: u64,
    /// The launch mitigation vector mixed into the key; zero where unset.
    pub launch_mit_vector: u64,
}

/// The request made from derived-key parameters.
pub open spec fn derived_key_req(value: DerivedKey) -> DerivedKeyReq {
    DerivedKeyReq {
        root_key_select: value.spec_root_key_select(),
        reserved_0: 0,
        guest_field_select: value.spec_guest_field_select().0,
        vmpl: value.spec_vmpl(),
        guest_svn: value.spec_guest_svn(),
        tcb_version: value.spec_tcb_version(),
        launch_mit_vector: match value.spec_launch_mit_vector() {
            Some(v) => v,
            None => 0,
        },
    }
}

fn request_from(value: &DerivedKey) -> (r: DerivedKeyReq)
    ensures
        r == derived_key_req(*value),
{
    DerivedKeyReq {
        root_key_select: value.get_root_key_select(),
        reserved_0: 0,
        guest_field_select: value.guest_field_select.0,
        vmpl: value.vmpl,
        guest_svn: value.guest_svn,
        tcb_version: value.tcb_version,
        launch_mit_vector: match value.launch_mit_vector {
            Some(v) => v,
            None => 0,
        },
    }
}

impl From<DerivedKey> for DerivedKeyReq {
    fn from(value: DerivedKey) -> DerivedKeyReq {
        request_from(&value)
    }
}

impl vstd::std_specs::convert::FromSpecImpl<DerivedKey> for DerivedKeyReq {
    open spec fn obeys_from_spec() -> bool {
        true
    }

    open spec fn from_spec(v: DerivedKey) -> DerivedKeyReq {
        derived_key_req(v)
    }
}

impl From<&mut DerivedKey> for DerivedKeyReq {
    fn from(value: &mut DerivedKey) -> (r: DerivedKeyReq)
        ensures
            *final(value) == *old(value),
    {
        request_from(value)
    }
}

impl vstd::std_specs::convert::FromSpecImpl<&mut DerivedKey> for DerivedKeyReq {
    open spec fn obeys_from_spec() -> bool {
        true
    }

    open spec fn from_spec(v: &mut DerivedKey) -> DerivedKeyReq {
        derived_key_req(*v)
    }
}

/// The secure processor's answer to a derived-key request.
#[derive(Debug, Default)]
pub struct DerivedKeyRsp {
    /// 0 on success, 0x16 for invalid parameters.
    pub status: u32,
    /// Reserved.
    pub reserved_0: [u8; 28],
    /// The derived key, where `status` is 0.
    pub key: [u8; 32],
}

/// A report request: the data to place in the report and the VMPL to
/// report at.
#[derive(Debug, Clone, Copy, PartialEq, Eq, PartialOrd, Ord)]
pub struct ReportReq {
    /// Data the guest asks to be included in the report.
    pub report_data: [u8; 64],
    /// The VMPL to report at; at least the current VMPL and at most
    /// `MAX_VMPL`.
    pub vmpl: u32,
    /// Reserved, zero.
    pub _reserved: [u8; 28],
}

/// A well-formed report request: its VMPL is in range and its reserved
/// bytes are zero.
pub open spec fn report_req_wf(r: ReportReq) -> bool {
    r.vmpl <= MAX_VMPL && r._reserved@ == Seq::new(28, |i: int| 0u8)
}

impl Default for ReportReq {
    fn default() -> (r: ReportReq)
        ensures
            r.report_data@ == Seq::new(64, |i: int| 0u8),
            r.vmpl == 1,
            r._reserved@ == Seq::new(28, |i: int| 0u8),
    {
        let r = ReportReq { report_data: [0u8; 64], vmpl: 1, _reserved: [0u8; 28] };
        assert(r.report_data@ =~= Seq::new(64, |i: int| 0u8));
        assert(r._reserved@ =~= Seq::new(28, |i: int| 0u8));
        r
    }
}

impl ReportReq {
    /// A report request for `report_data` (zeros where none is given) at
    /// `vmpl` (1 where none is given). A VMPL above `MAX_VMPL` is refused.
    pub fn new(report_data: Option<[u8; 64]>, vmpl: Option<u32>) -> (res: Result<Self, UserApiError>)
        ensures
            match vmpl {
                Some(v) if v > MAX_VMPL => res == Err::<ReportReq, UserApiError>(UserApiError::VmplError),
                _ => match res {
                    Ok(r) => {
                        &&& r.report_data@ == match report_data {
                            Some(d) => d@,
                            None => Seq::new(64, |i: int| 0u8),
                        }
                        &&& r.vmpl == match vmpl {
                            Some(v) => v,
                            None => 1u32,
                        }
                        &&& r._reserved@ == Seq::new(28, |i: int| 0u8)
                        &&& report_req_wf(r)
                    },
                    Err(_) => false,
                },
            },
    {
        let mut request = Self::default();
        if let Some(report_data) = report_data {
            request.report_data = report_data;
        }
        if let Some(vmpl) = vmpl {
            if vmpl > MAX_VMPL {
                return Err(UserApiError::VmplError);
            } else {
                request.vmpl = vmpl;
            }
        }
        Ok(request)
    }
}

/// A report request that also asks for the certificate chain, written to
/// a buffer of the guest's.
#[derive(Debug, Clone, Copy, Default)]
pub struct ExtReportReq {
    /// The report request.
    pub data: ReportReq,
    /// Start address of the certificate buffer.
    pub certs_address: u64,
    /// Page-aligned length of the certificate buffer.
    pub certs_len: u32,
}

impl ExtReportReq {
    /// An extended request for `data` with no certificate buffer given yet:
    /// the address is the all-ones sentinel and the length zero.
    pub fn new(data: &ReportReq) -> (r: Self)
        ensures
            r.data == *data,
            r.certs_address == u64::MAX,
            r.certs_len == 0,
    {
        ExtReportReq { data: *data, certs_address: u64::MAX, certs_len: 0 }
    }
}

/// Length of the padding that fills a report response to its fixed size.
pub const REPORT_RSP_PADDING: usize = 4000 - (REPORT_SIZE + 8 + 24);

/// The secure processor's answer to a report request. Together with the
/// 96-byte message header it fills one 4096-byte page.
#[derive(Clone, Copy)]
pub struct ReportRsp {
    /// 0 on success, 0x16 for invalid parameters.
    pub status: u32,
    /// Size in bytes of the report.
    pub report_size: u32,
    /// Reserved.
    pub reserved_0: [u8; 24],
    /// The report the firmware generated.
    pub report: [u8; REPORT_SIZE],
    /// Padding up to the fixed size.
    pub reserved_1: [u8; REPORT_RSP_PADDING],
}

/// The byte size of a report response, field by field.
pub open spec fn report_rsp_size() -> int {
    4 + 4 + 24 + REPORT_SIZE + REPORT_RSP_PADDING
}

/// The sizes of a report response's fields add up to 4000 bytes. (This
/// is a sum over the fields; what the compiler lays out is checked by the
/// tests.)
pub proof fn lemma_report_rsp_size()
    ensures
        report_rsp_size() == 4000,
{
}

impl Default for ReportRsp {
    fn default() -> (r: ReportRsp)
        ensures
            r.status == 0,
            r.report_size == 0,
            r.reserved_0@ == Seq::new(24, |i: int| 0u8),
            r.report@ == Seq::new(REPORT_SIZE as nat, |i: int| 0u8),
            r.reserved_1@ == Seq::new(REPORT_RSP_PADDING as nat, |i: int| 0u8),
    {
        let r = ReportRsp {
            status: 0,
            report_size: 0,
            reserved_0: [0u8; 24],
            report: [0u8; REPORT_SIZE],
            reserved_1: [0u8; REPORT_RSP_PADDING],
        };
        assert(r.reserved_0@ =~= Seq::new(24, |i: int| 0u8));
        assert(r.report@ =~= Seq::new(REPORT_SIZE as nat, |i: int| 0u8));
        assert(r.reserved_1@ =~= Seq::new(REPORT_RSP_PADDING as nat, |i: int| 0u8));
        r
    }
}

} // verus!
