use adapter_dns::protocol::BUFFER_TOO_SMALL_STATUS;
use adapter_dns::protocol::OsError;
use adapter_dns::protocol::allocate_snapshot_buffer;
use adapter_dns::protocol::check_fill_status;
use adapter_dns::protocol::plan_fill_buffer;

#[test]
fn sizing_must_report_buffer_too_small() {
    // A sizing call that reports 0 required bytes with a success status
    // violates the protocol: the operation fails before any further call.
    assert_eq!(plan_fill_buffer(0, 0), Err(OsError::UnexpectedSizeResult));
}

#[test]
fn sizing_with_unexpected_error_status_fails() {
    assert_eq!(plan_fill_buffer(87, 4096), Err(OsError::UnexpectedSizeResult));
}

#[test]
fn sizing_with_buffer_too_small_reports_size() {
    assert_eq!(plan_fill_buffer(BUFFER_TOO_SMALL_STATUS, 16384), Ok(16384));
    assert_eq!(plan_fill_buffer(111, 1), Ok(1));
}

#[test]
fn buffer_has_exactly_the_reported_size() {
    let buf = allocate_snapshot_buffer(1000);
    assert_eq!(buf.len(), 1000);
    assert!(buf.iter().all(|b| *b == 0));
    assert_eq!(allocate_snapshot_buffer(0).len(), 0);
}

#[test]
fn nonzero_fill_status_fails_with_that_status() {
    assert_eq!(check_fill_status(111), Err(OsError::EnumerationFailed(111)));
    assert_eq!(check_fill_status(232), Err(OsError::EnumerationFailed(232)));
}

#[test]
fn zero_fill_status_succeeds() {
    assert_eq!(check_fill_status(0), Ok(()));
}
