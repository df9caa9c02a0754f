use vstd::prelude::*;
use crate::diag::DiagnosticRecord;
use crate::diag::OdbcError;

verus! {

/// The protocol reports a definite success.
pub const SQL_SUCCESS: i16 = 0;
/// The protocol reports success, with diagnostic records left on the handle.
pub const SQL_SUCCESS_WITH_INFO: i16 = 1;
/// The protocol reports a documented error.
pub const SQL_ERROR: i16 = -1;
/// The protocol reports that the handle passed to the call was invalid.
pub const SQL_INVALID_HANDLE: i16 = -2;
/// The protocol reports an empty outcome: the end of a result set for a
/// fetch, or that no result set was produced for a direct execution.
pub const SQL_NO_DATA: i16 = 100;
/// The protocol asks for deferred parameter data; no call of this library
/// ever defers data, so this code is outside the documented set here.
pub const SQL_NEED_DATA: i16 = 99;

/// The tri-state outcome of one raw protocol call: definite success,
/// success with retrievable diagnostic information, or a documented error.
#[derive(Debug, PartialEq, Eq)]
pub enum Return<T> {
    Success(T),
    SuccessWithInfo(T),
    Error,
}

/// The return code reports success, with or without diagnostic information.
pub open spec fn is_success(rc: i16) -> bool {
    rc == SQL_SUCCESS || rc == SQL_SUCCESS_WITH_INFO
}

/// The code belongs to the documented set of a call that reports success,
/// success with information, or error.
pub open spec fn documented_common(rc: i16) -> bool {
    is_success(rc) || rc == SQL_ERROR
}

/// The code belongs to the documented set of a call that may additionally
/// report an empty outcome.
pub open spec fn documented_with_no_data(rc: i16) -> bool {
    documented_common(rc) || rc == SQL_NO_DATA
}

/// Translate the return code of a call documented to report only success,
/// success with information, or error. A code outside that set yields
/// `None`: the caller must treat it as an internal invariant violation.
pub fn classify_common(rc: i16) -> (r: Option<Return<()>>)
    ensures
        rc == SQL_SUCCESS ==> r == Some(Return::Success(())),
        rc == SQL_SUCCESS_WITH_INFO ==> r == Some(Return::SuccessWithInfo(())),
        rc == SQL_ERROR ==> r == Some(Return::<()>::Error),
        !documented_common(rc) ==> r is None,
{
    if rc == SQL_SUCCESS {
        Some(Return::Success(()))
    } else if rc == SQL_SUCCESS_WITH_INFO {
        Some(Return::SuccessWithInfo(()))
    } else if rc == SQL_ERROR {
        Some(Return::Error)
    } else {
        None
    }
}

/// Translate the return code of a call that may also report the empty
/// outcome. The carried boolean is true when the call reports data
/// (success or success with information) and false on the empty outcome,
/// which the protocol documents as a success, not an error.
pub fn classify_with_no_data(rc: i16) -> (r: Option<Return<bool>>)
    ensures
        rc == SQL_SUCCESS ==> r == Some(Return::Success(true)),
        rc == SQL_SUCCESS_WITH_INFO ==> r == Some(Return::SuccessWithInfo(true)),
        rc == SQL_NO_DATA ==> r == Some(Return::Success(false)),
        rc == SQL_ERROR ==> r == Some(Return::<bool>::Error),
        !documented_with_no_data(rc) ==> r is None,
{
    if rc == SQL_SUCCESS {
        Some(Return::Success(true))
    } else if rc == SQL_SUCCESS_WITH_INFO {
        Some(Return::SuccessWithInfo(true))
    } else if rc == SQL_NO_DATA {
        Some(Return::Success(false))
    } else if rc == SQL_ERROR {
        Some(Return::Error)
    } else {
        None
    }
}

impl<T> Return<T> {
    /// The outcome-to-result adapter: a documented error becomes a failure
    /// carrying the diagnostic records retrieved for the failing call, and
    /// both success outcomes become a plain success. Success with
    /// information never short-circuits: its diagnostics stay with the
    /// caller, who passed them in and still holds the handle's chain.
    pub fn into_result(self, diags: Vec<DiagnosticRecord>) -> (r: Result<T, OdbcError>)
        ensures
            self matches Return::Success(t) ==> r == Ok::<T, OdbcError>(t),
            self matches Return::SuccessWithInfo(t) ==> r == Ok::<T, OdbcError>(t),
            self is Error ==> (r matches Err(e) && e matches OdbcError::ProtocolError(d)
                && d@ == diags@),
    {
        match self {
            Return::Success(t) => Ok(t),
            Return::SuccessWithInfo(t) => Ok(t),
            Return::Error => Err(OdbcError::ProtocolError(diags)),
        }
    }
}

} // verus!
