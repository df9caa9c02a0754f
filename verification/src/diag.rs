use vstd::prelude::*;

verus! {

/// One record from the diagnostic chain associated with a handle after an
/// operation: a five-character state code, the driver's native error code,
/// and a human-readable message.
#[derive(Debug, PartialEq, Eq)]
pub struct DiagnosticRecord {
    pub state: String,
    pub native_error: i32,
    pub message: String,
}

/// The error taxonomy of the library.
///
/// `AllocationError` and `ProtocolError` are recoverable failures documented
/// by the protocol; they carry the diagnostic records retrieved for the
/// failing call. `InternalInvariantViolation` marks a return code outside the
/// documented set for a call, or a caller bug such as an over-long query
/// text: it is never recovered from, and the driving layer is expected to
/// abort on it. The two categories are kept disjoint so that callers and
/// test doubles can exercise the recoverable one alone.
#[derive(Debug, PartialEq, Eq)]
pub enum OdbcError {
    AllocationError(Vec<DiagnosticRecord>),
    ProtocolError(Vec<DiagnosticRecord>),
    InternalInvariantViolation,
}

} // verus!
