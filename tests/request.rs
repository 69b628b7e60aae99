use sev::policy::GuestFieldSelect;
use sev::request::{
    DerivedKey, DerivedKeyReq, DerivedKeyRsp, ExtReportReq, ReportReq, ReportRsp, MAX_VMPL,
};
use sev::error::UserApiError;

#[test]
pub fn test_new() {
    let report_data: [u8; 64] = [
        65, 77, 68, 32, 105, 115, 32, 101, 120, 116, 114, 101, 109, 101, 108, 121, 32, 97, 119,
        101, 115, 111, 109, 101, 33, 32, 87, 101, 32, 109, 97, 107, 101, 32, 116, 104, 101, 32,
        98, 101, 115, 116, 32, 67, 80, 85, 115, 33, 32, 65, 77, 68, 32, 82, 111, 99, 107, 115,
        33, 33, 33, 33, 33, 33,
    ];
    let expected: ReportReq = ReportReq {
        report_data,
        vmpl: 0,
        _reserved: [0; 28],
    };

    let actual: ReportReq = ReportReq::new(Some(report_data), Some(0)).unwrap();

    assert_eq!(expected, actual);
}

#[test]
#[should_panic]
pub fn test_new_error() {
    let report_data: [u8; 64] = [
        65, 77, 68, 32, 105, 115, 32, 101, 120, 116, 114, 101, 109, 101, 108, 121, 32, 97, 119,
        101, 115, 111, 109, 101, 33, 32, 87, 101, 32, 109, 97, 107, 101, 32, 116, 104, 101, 32,
        98, 101, 115, 116, 32, 67, 80, 85, 115, 33, 32, 65, 77, 68, 32, 82, 111, 99, 107, 115,
        33, 33, 33, 33, 33, 33,
    ];
    let expected: ReportReq = ReportReq {
        report_data,
        vmpl: 7,
        _reserved: [0; 28],
    };

    let actual: ReportReq = ReportReq::new(Some(report_data), Some(0)).unwrap();

    assert_eq!(expected, actual);
}

#[test]
fn test_derived_key_req_conversion() {
    let derived_key = DerivedKey::new(false, GuestFieldSelect(0x1234), 2, 1, 100, Some(123));

    let req: DerivedKeyReq = derived_key.into();
    assert_eq!(req.root_key_select, 0);
    assert_eq!(req.reserved_0, 0);
    assert_eq!(req.guest_field_select, 0x1234);
    assert_eq!(req.vmpl, 2);
    assert_eq!(req.guest_svn, 1);
    assert_eq!(req.tcb_version, 100);
    assert_eq!(req.launch_mit_vector, 123);

    let mut derived_key = derived_key;
    let req: DerivedKeyReq = (&mut derived_key).into();
    assert_eq!(req.root_key_select, 0);
    assert_eq!(req.reserved_0, 0);
    assert_eq!(req.guest_field_select, 0x1234);
    assert_eq!(req.vmpl, 2);
    assert_eq!(req.guest_svn, 1);
    assert_eq!(req.tcb_version, 100);
    assert_eq!(req.launch_mit_vector, 123);
}

#[test]
fn test_ext_report_req() {
    let report_req = ReportReq::default();
    let ext_report = ExtReportReq::new(&report_req);

    assert_eq!(ext_report.data, report_req);
    assert_eq!(ext_report.certs_address, u64::MAX);
    assert_eq!(ext_report.certs_len, 0);

    let default_ext = ExtReportReq::default();
    assert_eq!(default_ext.certs_address, 0);
    assert_eq!(default_ext.certs_len, 0);
}

#[test]
fn test_report_req() {
    let default_req = ReportReq::default();
    assert_eq!(default_req.report_data, [0; 64]);
    assert_eq!(default_req.vmpl, 1);
    assert_eq!(default_req._reserved, [0; 28]);

    let report_data = [42u8; 64];
    let req = ReportReq::new(Some(report_data), Some(2)).unwrap();
    assert_eq!(req.report_data, report_data);
    assert_eq!(req.vmpl, 2);

    let req = ReportReq::new(None, None).unwrap();
    assert_eq!(req.report_data, [0; 64]);
    assert_eq!(req.vmpl, 1);

    assert!(ReportReq::new(None, Some(4)).is_err());
    assert!(ReportReq::new(None, Some(MAX_VMPL)).is_ok());
}

#[test]
fn test_report_rsp() {
    let rsp = ReportRsp::default();

    assert_eq!(rsp.status, 0);
    assert_eq!(rsp.report_size, 0);
    assert_eq!(rsp.reserved_0, [0; 24]);

    assert_eq!(std::mem::size_of::<ReportRsp>(), 4000);
}

#[test]
fn test_derived_key_rsp() {
    let rsp = DerivedKeyRsp::default();

    assert_eq!(rsp.status, 0);
    assert_eq!(rsp.reserved_0, [0; 28]);
    assert_eq!(rsp.key, [0; 32]);
}

#[test]
fn vmpl_three_accepted_four_refused() {
    let ok = ReportReq::new(None, Some(3)).unwrap();
    assert_eq!(ok.vmpl, 3);
    assert_eq!(ReportReq::new(Some([1u8; 64]), Some(4)), Err(UserApiError::VmplError));
    assert_eq!(ReportReq::new(None, Some(u32::MAX)), Err(UserApiError::VmplError));
}

#[test]
fn derived_key_defaults_mitigation_vector_to_zero() {
    let key = DerivedKey::new(true, GuestFieldSelect(0x3f), 1, 7, 0xdead_beef, None);
    assert_eq!(key.get_root_key_select(), 1);
    let req = DerivedKeyReq::from(key);
    assert_eq!(req.root_key_select, 1);
    assert_eq!(req.guest_field_select, 0x3f);
    assert_eq!(req.launch_mit_vector, 0);
    assert_eq!(req.tcb_version, 0xdead_beef);
}

#[test]
fn report_response_fills_page_after_header() {
    assert_eq!(std::mem::size_of::<ReportRsp>() + 96, 4096);
    let rsp = ReportRsp::default();
    assert!(rsp.report.iter().all(|b| *b == 0));
    assert!(rsp.reserved_1.iter().all(|b| *b == 0));
}
