//! What a pagination request can fail with.

use vstd::prelude::*;

verus! {

/// The error type of sqlx, carried through as it came.
#[verifier::external_type_specification]
#[verifier::external_body]
pub struct ExSourceError(sqlx::Error);

/// The variants of a data source's error that the library tells apart.
#[derive(Clone, Copy, Debug, PartialEq, Eq)]
pub enum SourceFault {
    /// A column was asked for by an index that the row does not have.
    ColumnIndexOutOfBounds,
    /// A column was asked for by a name that the row does not have.
    ColumnNotFound,
    /// The value of one column could not be decoded.
    ColumnDecode,
    /// A value could not be decoded.
    Decode,
    /// Anything else: the connection, the statement, the pool, a type that
    /// the query names and the data source does not know.
    Other,
}

impl SourceFault {
    /// Whether the fault came from turning a row into a record, not from
    /// getting the row.
    pub open spec fn is_decode(self) -> bool {
        !(self is Other)
    }
}

/// Why a page could not be had.
#[derive(Debug)]
pub enum PaginationError {
    /// The page size is zero.
    InvalidPageSize,
    /// The page asked for is not among the pages.
    PageOutOfRange,
    /// There is no page after the current one.
    NoNextPage,
    /// There is no page before the current one.
    NoPreviousPage,
    /// The data source failed; its error is kept as it came.
    DataSourceError(sqlx::Error),
    /// A row could not be turned into a record; the error is kept as it came.
    DecodeError(sqlx::Error),
}

/// The fault that an error of sqlx stands for: its variant, as `fault_of`
/// reads it.
pub uninterp spec fn fault_kind(error: sqlx::Error) -> SourceFault;

/// Tells the variants of `sqlx::Error` apart: the four that a row raises
/// while it is turned into a record each have a fault of their own, every
/// other variant is `Other`. The answer depends on the error alone, and
/// `fault_kind` is its name.
#[verifier::external_body]
fn fault_of(error: &sqlx::Error) -> (fault: SourceFault)
    ensures
        fault == fault_kind(*error),
{
    match error {
        sqlx::Error::ColumnIndexOutOfBounds { .. } => SourceFault::ColumnIndexOutOfBounds,
        sqlx::Error::ColumnNotFound(_) => SourceFault::ColumnNotFound,
        sqlx::Error::ColumnDecode { .. } => SourceFault::ColumnDecode,
        sqlx::Error::Decode(_) => SourceFault::Decode,
        _ => SourceFault::Other,
    }
}

impl PaginationError {
    /// Files `error` under the variant that `fault` calls for.
    pub fn classified(fault: SourceFault, error: sqlx::Error) -> (e: PaginationError)
        ensures
            fault.is_decode() ==> e == PaginationError::DecodeError(error),
            !fault.is_decode() ==> e == PaginationError::DataSourceError(error),
    {
        match fault {
            SourceFault::Other => PaginationError::DataSourceError(error),
            _ => PaginationError::DecodeError(error),
        }
    }

    /// Takes in an error of the data source, unchanged: as a decode error
    /// where a row could not be turned into a record, as a data-source error
    /// otherwise.
    pub fn from_source(error: sqlx::Error) -> (e: PaginationError)
        ensures
            fault_kind(error).is_decode() ==> e == PaginationError::DecodeError(error),
            !fault_kind(error).is_decode() ==> e == PaginationError::DataSourceError(error),
    {
        let fault = fault_of(&error);
        PaginationError::classified(fault, error)
    }
}

} // verus!
