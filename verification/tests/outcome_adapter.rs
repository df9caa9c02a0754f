use odbc_core::classify_common;
use odbc_core::classify_with_no_data;
use odbc_core::DiagnosticRecord;
use odbc_core::OdbcError;
use odbc_core::Return;
use odbc_core::SQL_ERROR;
use odbc_core::SQL_INVALID_HANDLE;
use odbc_core::SQL_NEED_DATA;
use odbc_core::SQL_NO_DATA;
use odbc_core::SQL_SUCCESS;
use odbc_core::SQL_SUCCESS_WITH_INFO;

fn record(state: &str, native_error: i32, message: &str) -> DiagnosticRecord {
    DiagnosticRecord {
        state: String::from(state),
        native_error,
        message: String::from(message),
    }
}

#[test]
fn classify_common_maps_documented_codes() {
    assert_eq!(classify_common(SQL_SUCCESS), Some(Return::Success(())));
    assert_eq!(
        classify_common(SQL_SUCCESS_WITH_INFO),
        Some(Return::SuccessWithInfo(()))
    );
    assert_eq!(classify_common(SQL_ERROR), Some(Return::Error));
}

#[test]
fn classify_common_rejects_undocumented_codes() {
    assert_eq!(classify_common(SQL_INVALID_HANDLE), None);
    assert_eq!(classify_common(SQL_NEED_DATA), None);
    // The empty outcome is not documented for calls classified here.
    assert_eq!(classify_common(SQL_NO_DATA), None);
    assert_eq!(classify_common(2), None);
}

#[test]
fn classify_with_no_data_maps_documented_codes() {
    assert_eq!(classify_with_no_data(SQL_SUCCESS), Some(Return::Success(true)));
    assert_eq!(
        classify_with_no_data(SQL_SUCCESS_WITH_INFO),
        Some(Return::SuccessWithInfo(true))
    );
    assert_eq!(classify_with_no_data(SQL_NO_DATA), Some(Return::Success(false)));
    assert_eq!(classify_with_no_data(SQL_ERROR), Some(Return::Error));
}

#[test]
fn classify_with_no_data_rejects_undocumented_codes() {
    assert_eq!(classify_with_no_data(SQL_NEED_DATA), None);
    assert_eq!(classify_with_no_data(SQL_INVALID_HANDLE), None);
    assert_eq!(classify_with_no_data(101), None);
}

#[test]
fn into_result_maps_success_to_ok() {
    let r: Result<i16, OdbcError> = Return::Success(5i16).into_result(Vec::new());
    assert_eq!(r, Ok(5));
}

#[test]
fn into_result_keeps_success_with_info_as_success() {
    let diags = vec![record("01000", 0, "general warning")];
    let r: Result<i16, OdbcError> = Return::SuccessWithInfo(5i16).into_result(diags);
    assert_eq!(r, Ok(5));
}

#[test]
fn into_result_maps_error_to_protocol_error_with_diagnostics() {
    let diags = vec![record("42000", 1, "syntax error")];
    let r: Result<i16, OdbcError> = Return::<i16>::Error.into_result(diags);
    match r {
        Err(OdbcError::ProtocolError(d)) => {
            assert_eq!(d.len(), 1);
            assert_eq!(d[0].state, "42000");
            assert_eq!(d[0].native_error, 1);
            assert_eq!(d[0].message, "syntax error");
        }
        other => panic!("expected a protocol error, got {:?}", other),
    }
}
