use vstd::prelude::*;
use core::marker::PhantomData;
use crate::diag::DiagnosticRecord;
use crate::diag::OdbcError;
use crate::outcome::{
    Return, classify_common, classify_with_no_data, is_success, documented_common,
    documented_with_no_data, SQL_ERROR, SQL_NO_DATA,
};

verus! {

/// A live, connected data source, named by the opaque token under which the
/// driving layer keeps the native connection handle. Statements borrow the
/// data source they were allocated against, so a connection cannot be torn
/// down while a statement on it is still alive.
pub struct DataSource {
    handle: u64,
}

impl DataSource {
    /// The token of the native connection handle.
    pub closed spec fn handle_id(&self) -> u64 {
        self.handle
    }

    pub fn from_handle(handle: u64) -> (r: Self)
        ensures
            r.handle_id() == handle,
    {
        DataSource { handle }
    }

    pub fn handle(&self) -> (h: u64)
        ensures
            h == self.handle_id(),
    {
        self.handle
    }
}

/// `Statement` phase marker: freshly allocated, or returned to after the
/// cursor was closed; no result set is open.
#[derive(Debug)]
pub struct Allocated;

/// `Statement` phase marker: a query was submitted and a result set with a
/// cursor is open.
#[derive(Debug)]
pub struct HasResult;

/// `Statement` phase marker: a query was submitted and definitively produced
/// no result set. The legal operations are those of a fresh statement, so
/// the phase is the same type.
pub type NoResult = Allocated;

/// The longest query text, in bytes, that the protocol's signed 32-bit
/// length argument can carry.
pub const MAX_QUERY_LEN: usize = 0x7fff_ffff;

/// The fixed capacity of a cursor's scratch buffer, in bytes.
pub const SCRATCH_CAPACITY: usize = 512;

/// One statement of the protocol, in the phase named by `S`. The value
/// holds the opaque token of the native statement handle and the diagnostic
/// records of the last operation performed through it. Phase transitions
/// consume the value, so a statement cannot be used in a phase it has left.
#[derive(Debug)]
#[verifier::reject_recursive_types(S)]
pub struct Statement<'a, S> {
    handle: u64,
    diags: Vec<DiagnosticRecord>,
    parent: PhantomData<&'a DataSource>,
    phase: PhantomData<S>,
}

/// Holds a statement after a direct execution: either the query produced a
/// result set with an open cursor, or it definitively produced none.
#[derive(Debug)]
pub enum Executed<'a> {
    Data(Statement<'a, HasResult>),
    NoData(Statement<'a, NoResult>),
}

/// A transient accessor for the columns of the one row that the enclosing
/// fetch produced. It borrows the statement, so the statement cannot be
/// fetched from again, mutated, or consumed while the cursor is alive, and
/// it owns the fixed-size scratch buffer that column decoding stages raw
/// bytes in.
pub struct Cursor<'c, 'a> {
    stmt: &'c Statement<'a, HasResult>,
    buffer: Vec<u8>,
}

/// The per-type column decoding capability: an implementation pulls one
/// column's value for the current row out of the protocol, staging raw
/// bytes in the cursor's scratch buffer, and reports the tri-state outcome
/// together with the diagnostic records of the call. A decoded `None`
/// stands for the protocol's null sentinel and is a success, not an error.
pub trait Output: Sized {
    fn get_data(handle: u64, col_or_param_num: u16, buffer: &mut Vec<u8>) -> (r: (
        Return<Option<Self>>,
        Vec<DiagnosticRecord>,
    ));
}

fn scratch_buffer() -> (b: Vec<u8>)
    ensures
        b@.len() == SCRATCH_CAPACITY,
{
    let mut b: Vec<u8> = Vec::new();
    while b.len() < SCRATCH_CAPACITY
        invariant
            b@.len() <= SCRATCH_CAPACITY,
        decreases SCRATCH_CAPACITY - b.len(),
    {
        b.push(0u8);
    }
    b
}

impl<'a, S> Statement<'a, S> {
    /// The token of the native statement handle this value owns.
    pub closed spec fn handle_id(&self) -> u64 {
        self.handle
    }

    /// The diagnostic records of the last operation performed through this
    /// statement.
    pub closed spec fn diag_view(&self) -> Seq<DiagnosticRecord> {
        self.diags@
    }

    fn with_handle(handle: u64, diags: Vec<DiagnosticRecord>) -> (r: Self)
        ensures
            r.handle_id() == handle,
            r.diag_view() == diags@,
    {
        Statement { handle, diags, parent: PhantomData, phase: PhantomData }
    }

    pub fn handle(&self) -> (h: u64)
        ensures
            h == self.handle_id(),
    {
        self.handle
    }

    /// The diagnostic chain left by the last operation; success with
    /// information keeps its records retrievable here.
    pub fn diagnostics(&self) -> (r: &Vec<DiagnosticRecord>)
        ensures
            r@ == self.diag_view(),
    {
        &self.diags
    }

    /// Gives the native handle token up for release. Consuming the
    /// statement here is what makes release final: no operation can reach
    /// the handle through this value afterwards, so the driving layer frees
    /// the native resource exactly once.
    pub fn release(self) -> (h: u64)
        ensures
            h == self.handle_id(),
    {
        self.handle
    }
}

impl<'a> Statement<'a, Allocated> {
    /// Wraps the statement handle that the protocol allocated against the
    /// given data source. `rc` is the return code of the allocation call
    /// and `diags` its diagnostic records. On the documented error outcome
    /// the allocation failed and no statement exists; a code outside the
    /// documented set is an internal invariant violation.
    pub fn with_parent(
        ds: &'a DataSource,
        handle: u64,
        rc: i16,
        diags: Vec<DiagnosticRecord>,
    ) -> (r: Result<Self, OdbcError>)
        ensures
            r is Ok <==> is_success(rc),
            is_success(rc) ==> (r matches Ok(s) && s.handle_id() == handle && s.diag_view()
                == diags@),
            rc == SQL_ERROR ==> (r matches Err(e) && e matches OdbcError::AllocationError(d)
                && d@ == diags@),
            !documented_common(rc) ==> r == Err::<Self, OdbcError>(
                OdbcError::InternalInvariantViolation,
            ),
    {
        let _parent = ds;
        match classify_common(rc) {
            Some(Return::Success(())) => Ok(Self::with_handle(handle, diags)),
            Some(Return::SuccessWithInfo(())) => Ok(Self::with_handle(handle, diags)),
            Some(Return::Error) => Err(OdbcError::AllocationError(diags)),
            None => Err(OdbcError::InternalInvariantViolation),
        }
    }

    /// Transitions to the result-set phase after the catalog call that
    /// enumerates tables, which always produces a result set on success.
    /// `rc` is the return code of that call and `diags` its diagnostic
    /// records; they become the new statement's diagnostic chain.
    pub fn tables(self, rc: i16, diags: Vec<DiagnosticRecord>) -> (r: Result<
        Statement<'a, HasResult>,
        OdbcError,
    >)
        ensures
            r is Ok <==> is_success(rc),
            is_success(rc) ==> (r matches Ok(s) && s.handle_id() == self.handle_id()
                && s.diag_view() == diags@),
            rc == SQL_ERROR ==> (r matches Err(e) && e matches OdbcError::ProtocolError(d)
                && d@ == diags@),
            !documented_common(rc) ==> r == Err::<Statement<'a, HasResult>, OdbcError>(
                OdbcError::InternalInvariantViolation,
            ),
    {
        match classify_common(rc) {
            Some(Return::Success(())) => Ok(Statement::with_handle(self.handle, diags)),
            Some(Return::SuccessWithInfo(())) => Ok(Statement::with_handle(self.handle, diags)),
            Some(Return::Error) => Err(OdbcError::ProtocolError(diags)),
            None => Err(OdbcError::InternalInvariantViolation),
        }
    }

    /// Transitions after a direct one-shot execution of a query text of
    /// `query_len` bytes. A text longer than the protocol's length argument
    /// can carry marks a caller bug, and is an invariant violation rather
    /// than a recoverable failure. Otherwise `rc` decides: both success
    /// codes report that rows may be available, the empty outcome reports
    /// definitively that no result set was produced, and the documented
    /// error code yields a recoverable failure carrying `diags`.
    pub fn exec_direct(self, query_len: usize, rc: i16, diags: Vec<DiagnosticRecord>) -> (r:
        Result<Executed<'a>, OdbcError>)
        ensures
            r is Ok <==> query_len <= MAX_QUERY_LEN && (is_success(rc) || rc == SQL_NO_DATA),
            (r matches Ok(e) && e is NoData) <==> query_len <= MAX_QUERY_LEN && rc
                == SQL_NO_DATA,
            query_len > MAX_QUERY_LEN ==> r == Err::<Executed<'a>, OdbcError>(
                OdbcError::InternalInvariantViolation,
            ),
            query_len <= MAX_QUERY_LEN && is_success(rc) ==> (r matches Ok(e)
                && e matches Executed::Data(s) && s.handle_id() == self.handle_id()
                && s.diag_view() == diags@),
            query_len <= MAX_QUERY_LEN && rc == SQL_NO_DATA ==> (r matches Ok(e)
                && e matches Executed::NoData(s) && s.handle_id() == self.handle_id()
                && s.diag_view() == diags@),
            query_len <= MAX_QUERY_LEN && rc == SQL_ERROR ==> (r matches Err(e)
                && e matches OdbcError::ProtocolError(d) && d@ == diags@),
            query_len <= MAX_QUERY_LEN && !documented_with_no_data(rc) ==> r == Err::<
                Executed<'a>,
                OdbcError,
            >(OdbcError::InternalInvariantViolation),
    {
        if query_len > MAX_QUERY_LEN {
            return Err(OdbcError::InternalInvariantViolation);
        }
        match classify_with_no_data(rc) {
            Some(Return::Success(true)) => Ok(Executed::Data(Statement::with_handle(self.handle, diags))),
            Some(Return::SuccessWithInfo(true)) => Ok(Executed::Data(Statement::with_handle(self.handle, diags))),
            Some(Return::Success(false)) => Ok(Executed::NoData(Statement::with_handle(self.handle, diags))),
            Some(Return::SuccessWithInfo(false)) => Ok(Executed::NoData(Statement::with_handle(self.handle, diags))),
            Some(Return::Error) => Err(OdbcError::ProtocolError(diags)),
            None => Err(OdbcError::InternalInvariantViolation),
        }
    }
}

impl<'a> Statement<'a, HasResult> {
    /// Reports how many columns the open result set exposes, from the
    /// return code `rc` and count `num_cols` of the column-count call. A
    /// count of zero is legal: some drivers expose a statement in this
    /// phase that turns out to return no columns.
    pub fn num_result_cols(&self, rc: i16, num_cols: i16, diags: Vec<DiagnosticRecord>) -> (r:
        Result<i16, OdbcError>)
        ensures
            r is Ok <==> is_success(rc),
            is_success(rc) ==> r == Ok::<i16, OdbcError>(num_cols),
            rc == SQL_ERROR ==> (r matches Err(e) && e matches OdbcError::ProtocolError(d)
                && d@ == diags@),
            !documented_common(rc) ==> r == Err::<i16, OdbcError>(
                OdbcError::InternalInvariantViolation,
            ),
    {
        match classify_common(rc) {
            Some(ret) => match ret {
                Return::Success(()) => Ok(num_cols),
                Return::SuccessWithInfo(()) => Ok(num_cols),
                Return::Error => Err(OdbcError::ProtocolError(diags)),
            },
            None => Err(OdbcError::InternalInvariantViolation),
        }
    }

    /// Advances to the next row, from the return code `rc` of the fetch
    /// call. Exactly the empty outcome yields `None`: the end of the result
    /// set, which is a success. Either success code yields a cursor for the
    /// just-fetched row, borrowing this statement until the cursor is
    /// dropped; its records become this statement's diagnostic chain.
    pub fn fetch<'c>(&'c mut self, rc: i16, diags: Vec<DiagnosticRecord>) -> (r: Result<
        Option<Cursor<'c, 'a>>,
        OdbcError,
    >)
        ensures
            final(self).handle_id() == old(self).handle_id(),
            r is Ok <==> is_success(rc) || rc == SQL_NO_DATA,
            (r matches Ok(c) && c is None) <==> rc == SQL_NO_DATA,
            is_success(rc) ==> (r matches Ok(c) && c matches Some(cursor)
                && cursor.handle_id() == old(self).handle_id() && cursor.buffer_len()
                == SCRATCH_CAPACITY && final(self).diag_view() == diags@),
            rc == SQL_NO_DATA ==> (r == Ok::<Option<Cursor<'c, 'a>>, OdbcError>(None)
                && final(self).diag_view() == diags@),
            rc == SQL_ERROR ==> (r matches Err(e) && e matches OdbcError::ProtocolError(d)
                && d@ == diags@ && final(self).diag_view() == old(self).diag_view()),
            !documented_with_no_data(rc) ==> (r == Err::<Option<Cursor<'c, 'a>>, OdbcError>(
                OdbcError::InternalInvariantViolation,
            ) && final(self).diag_view() == old(self).diag_view()),
    {
        match classify_with_no_data(rc) {
            Some(ret) => match ret {
                Return::Success(more) => {
                    self.diags = diags;
                    if more {
                        Ok(Some(Cursor { stmt: &*self, buffer: scratch_buffer() }))
                    } else {
                        Ok(None)
                    }
                },
                Return::SuccessWithInfo(more) => {
                    self.diags = diags;
                    if more {
                        Ok(Some(Cursor { stmt: &*self, buffer: scratch_buffer() }))
                    } else {
                        Ok(None)
                    }
                },
                Return::Error => Err(OdbcError::ProtocolError(diags)),
            },
            None => Err(OdbcError::InternalInvariantViolation),
        }
    }

    /// Releases the open result set, from the return code `rc` of the
    /// cursor-closing call, so that the statement can be reused for a new
    /// query: reusing a handle is cheaper than reallocating one, and the
    /// protocol requires the cursor to be closed first.
    pub fn close_cursor(self, rc: i16, diags: Vec<DiagnosticRecord>) -> (r: Result<
        Statement<'a, NoResult>,
        OdbcError,
    >)
        ensures
            r is Ok <==> is_success(rc),
            is_success(rc) ==> (r matches Ok(s) && s.handle_id() == self.handle_id()
                && s.diag_view() == diags@),
            rc == SQL_ERROR ==> (r matches Err(e) && e matches OdbcError::ProtocolError(d)
                && d@ == diags@),
            !documented_common(rc) ==> r == Err::<Statement<'a, NoResult>, OdbcError>(
                OdbcError::InternalInvariantViolation,
            ),
    {
        match classify_common(rc) {
            Some(Return::Success(())) => Ok(Statement::with_handle(self.handle, diags)),
            Some(Return::SuccessWithInfo(())) => Ok(Statement::with_handle(self.handle, diags)),
            Some(Return::Error) => Err(OdbcError::ProtocolError(diags)),
            None => Err(OdbcError::InternalInvariantViolation),
        }
    }
}

impl<'c, 'a> Cursor<'c, 'a> {
    /// The token of the statement handle this cursor reads through.
    pub closed spec fn handle_id(&self) -> u64 {
        self.stmt.handle_id()
    }

    /// The current length of the scratch buffer.
    pub closed spec fn buffer_len(&self) -> nat {
        self.buffer@.len()
    }

    /// Retrieves one column of the current row, decoded by the `Output`
    /// capability of `T`. Column numbers are 1-based; an out-of-range
    /// number is a protocol-level error, not checked here. Whatever the
    /// decoder reports, the adapter turns only the documented error outcome
    /// into a failure, and that failure is always a `ProtocolError` carrying
    /// the call's diagnostic records: a decoded null is a success.
    pub fn get_data<T: Output>(&mut self, col_or_param_num: u16) -> (r: Result<
        Option<T>,
        OdbcError,
    >)
        ensures
            final(self).handle_id() == old(self).handle_id(),
            r matches Err(e) ==> e matches OdbcError::ProtocolError(_),
    {
        let (ret, diags) = T::get_data(self.stmt.handle(), col_or_param_num, &mut self.buffer);
        ret.into_result(diags)
    }
}

} // verus!
