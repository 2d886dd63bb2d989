//! Backend-independent error model.
//!
//! Every `Store` operation that can fail returns an [`Error`] holding one of
//! the closed set of [`ErrorCode`] kinds. A backend adapter reports its native
//! failure surface as a [`BackendFault`] and normalizes it through
//! [`Error::from_fault`] before the error crosses the `Store` boundary, so no
//! backend-specific error representation is ever observable by a caller.

use vstd::prelude::*;

verus! {

/// A backend's native failure surface, reduced to the categories the error
/// model distinguishes: transport failures, pool lifecycle failures, an empty
/// result on a single-row fetch, rejections of the operation itself, and a
/// catch-all that carries the backend's diagnostic message.
pub enum BackendFault {
    /// The transport to the backend failed mid-operation.
    Io,
    /// The connection pool was already shut down.
    PoolClosed,
    /// Waiting for a pooled connection timed out.
    PoolTimedOut,
    /// A single-row fetch matched no row.
    RowNotFound,
    /// The backend rejected the operation (constraint violation, bad query shape).
    Database,
    /// The result row lacked a requested column.
    ColumnNotFound,
    /// Any other native failure, with the backend's diagnostic message.
    Other(String),
}

/// Specification-level value of a [`BackendFault`].
pub enum FaultV {
    Io,
    PoolClosed,
    PoolTimedOut,
    RowNotFound,
    Database,
    ColumnNotFound,
    Other(Seq<char>),
}

impl View for BackendFault {
    type V = FaultV;

    open spec fn view(&self) -> FaultV {
        match self {
            BackendFault::Io => FaultV::Io,
            BackendFault::PoolClosed => FaultV::PoolClosed,
            BackendFault::PoolTimedOut => FaultV::PoolTimedOut,
            BackendFault::RowNotFound => FaultV::RowNotFound,
            BackendFault::Database => FaultV::Database,
            BackendFault::ColumnNotFound => FaultV::ColumnNotFound,
            BackendFault::Other(m) => FaultV::Other(m@),
        }
    }
}

/// The closed set of error kinds a `Store` operation may surface.
pub enum ErrorCode {
    /// Backend unreachable, pool exhausted, or I/O failure; transient, the
    /// caller may retry.
    ConnectionFailed,
    /// The targeted record does not exist. Returned by lookups only, never by
    /// existence checks, which report absence as a successful `false`.
    RecordNotFound,
    /// The backend rejected the logical operation as malformed; a programming
    /// or data error, not retryable.
    InvalidSyntax,
    /// Catch-all for every other backend failure; carries the backend's
    /// diagnostic message and must not be silently swallowed.
    Unknown(String),
}

/// Specification-level value of an [`ErrorCode`].
pub enum CodeV {
    ConnectionFailed,
    RecordNotFound,
    InvalidSyntax,
    Unknown(Seq<char>),
}

impl View for ErrorCode {
    type V = CodeV;

    open spec fn view(&self) -> CodeV {
        match self {
            ErrorCode::ConnectionFailed => CodeV::ConnectionFailed,
            ErrorCode::RecordNotFound => CodeV::RecordNotFound,
            ErrorCode::InvalidSyntax => CodeV::InvalidSyntax,
            ErrorCode::Unknown(m) => CodeV::Unknown(m@),
        }
    }
}

/// The error type that crosses the `Store` boundary.
pub struct Error {
    pub code: ErrorCode,
}

impl View for Error {
    type V = CodeV;

    open spec fn view(&self) -> CodeV {
        self.code@
    }
}

/// The normalization mapping: which error kind each native failure category
/// becomes. Transport and pool failures are transient; an empty single-row
/// fetch is a missing record; a rejected operation is a syntax error; anything
/// else keeps its diagnostic message.
pub open spec fn code_of_fault(f: FaultV) -> CodeV {
    match f {
        FaultV::Io => CodeV::ConnectionFailed,
        FaultV::PoolClosed => CodeV::ConnectionFailed,
        FaultV::PoolTimedOut => CodeV::ConnectionFailed,
        FaultV::RowNotFound => CodeV::RecordNotFound,
        FaultV::Database => CodeV::InvalidSyntax,
        FaultV::ColumnNotFound => CodeV::InvalidSyntax,
        FaultV::Other(m) => CodeV::Unknown(m),
    }
}

/// The normalization mapping for identifier resolution, whose error surface
/// is narrower than the other operations': it may fail with `ConnectionFailed`
/// or `Unknown` alone. Transport and pool failures are transient as
/// everywhere; a rejected operation cannot mean a malformed resolution
/// request, so it surfaces as `Unknown` with a fixed diagnostic rather than
/// as `InvalidSyntax`; a zero-row condition never reaches this mapping, being
/// the empty resolution result.
pub open spec fn resolution_code_of_fault(f: FaultV) -> CodeV {
    match f {
        FaultV::Io => CodeV::ConnectionFailed,
        FaultV::PoolClosed => CodeV::ConnectionFailed,
        FaultV::PoolTimedOut => CodeV::ConnectionFailed,
        FaultV::Other(m) => CodeV::Unknown(m),
        _ => CodeV::Unknown("backend rejected the resolution query"@),
    }
}

impl Error {
    /// Normalize a backend's native failure into the closed error set.
    /// Every fault maps to exactly one kind, per [`code_of_fault`].
    pub fn from_fault(f: &BackendFault) -> (e: Error)
        ensures
            e@ == code_of_fault(f@),
    {
        let code = match f {
            BackendFault::Io => ErrorCode::ConnectionFailed,
            BackendFault::PoolClosed => ErrorCode::ConnectionFailed,
            BackendFault::PoolTimedOut => ErrorCode::ConnectionFailed,
            BackendFault::RowNotFound => ErrorCode::RecordNotFound,
            BackendFault::Database => ErrorCode::InvalidSyntax,
            BackendFault::ColumnNotFound => ErrorCode::InvalidSyntax,
            BackendFault::Other(m) => ErrorCode::Unknown(m.clone()),
        };
        Error { code }
    }
}

/// Every fault normalizes to exactly one of the four error kinds, and the
/// transient kind `ConnectionFailed` is produced by exactly the transport and
/// pool failures; a missing row is the one source of `RecordNotFound`; a
/// rejected operation is the one source of `InvalidSyntax`; every other fault
/// surfaces as `Unknown` with its diagnostic message preserved.
pub proof fn lemma_fault_normalization_exact(f: FaultV)
    ensures
        code_of_fault(f) == CodeV::ConnectionFailed <==> (f == FaultV::Io || f == FaultV::PoolClosed
            || f == FaultV::PoolTimedOut),
        code_of_fault(f) == CodeV::RecordNotFound <==> f == FaultV::RowNotFound,
        code_of_fault(f) == CodeV::InvalidSyntax <==> (f == FaultV::Database
            || f == FaultV::ColumnNotFound),
        forall|m: Seq<char>| code_of_fault(f) == CodeV::Unknown(m) <==> f == FaultV::Other(m),
{
}

} // verus!
