use disk_serial::error::{QueryError, OS_ERROR_NOT_FOUND};

#[test]
fn only_the_open_failure_with_code_two_is_not_found() {
    assert_eq!(OS_ERROR_NOT_FOUND, 2);
    assert!(QueryError::OpenFailed(2).is_not_found());
    assert!(!QueryError::OpenFailed(3).is_not_found());
    assert!(!QueryError::OpenFailed(5).is_not_found());
    assert!(!QueryError::OpenFailed(0).is_not_found());
    assert!(!QueryError::QueryFailed(2).is_not_found());
    assert!(!QueryError::TruncatedResponse.is_not_found());
    assert!(!QueryError::NoSerialNumber.is_not_found());
    assert!(!QueryError::InvalidEncoding.is_not_found());
}

#[test]
fn open_and_query_failures_differ_by_kind_and_code() {
    assert_ne!(QueryError::OpenFailed(2), QueryError::QueryFailed(2));
    assert_ne!(QueryError::OpenFailed(2), QueryError::OpenFailed(3));
    assert_eq!(QueryError::OpenFailed(2), QueryError::OpenFailed(OS_ERROR_NOT_FOUND));
}
