//! A safety layer over a call-sequenced database client protocol.
//!
//! The protocol exposes statements as opaque handles and reports every call
//! through an integer return code; calling its operations out of order is
//! erroneous at the protocol level. This library encodes the statement
//! lifecycle as a phase-typed state machine: each operation is available
//! only in the phase where the protocol permits it, and phase transitions
//! consume their input value, so an out-of-order call does not compile.
//!
//! The raw calls themselves live in the unverified driving layer, which
//! performs one call at a time and hands the return code and the handle's
//! diagnostic records to the functions here; everything that is decided
//! from those values — outcome classification, error construction, and the
//! phase transition — is verified.

mod diag;
mod outcome;
mod statement;

pub use diag::DiagnosticRecord;
pub use diag::OdbcError;
pub use outcome::Return;
pub use outcome::classify_common;
pub use outcome::classify_with_no_data;
pub use outcome::is_success;
pub use outcome::documented_common;
pub use outcome::documented_with_no_data;
pub use outcome::SQL_SUCCESS;
pub use outcome::SQL_SUCCESS_WITH_INFO;
pub use outcome::SQL_ERROR;
pub use outcome::SQL_INVALID_HANDLE;
pub use outcome::SQL_NO_DATA;
pub use outcome::SQL_NEED_DATA;
pub use statement::DataSource;
pub use statement::Allocated;
pub use statement::HasResult;
pub use statement::NoResult;
pub use statement::Statement;
pub use statement::Executed;
pub use statement::Cursor;
pub use statement::Output;
pub use statement::MAX_QUERY_LEN;
pub use statement::SCRATCH_CAPACITY;
