//! The Senzing error types and the classification of numeric error codes.
use vstd::prelude::*;
use crate::kind::SzErrorKind;

verus! {

/// The error types of the Senzing C SDK into which error codes fall.
#[derive(Debug, Clone, Copy, PartialEq, Eq, Structural)]
pub enum SzErrorType {
    SzBadInputError,
    SzConfigurationError,
    SzDatabaseConnectionLostError,
    SzDatabaseError,
    SzDatabaseTransientError,
    SzError,
    SzLicenseError,
    SzNotFoundError,
    SzNotInitializedError,
    SzReplaceConflictError,
    SzRetryTimeoutExceededError,
    SzUnhandledError,
    SzUnknownDataSourceError,
}

/// The error type of each classified Senzing error code; `None` for a code
/// outside the table.
pub open spec fn code_error_type(code: i64) -> Option<SzErrorType> {
    match code {
        0 | 5 => Some(SzErrorType::SzError),
        2 => Some(SzErrorType::SzBadInputError),
        10 => Some(SzErrorType::SzRetryTimeoutExceededError),
        14 => Some(SzErrorType::SzConfigurationError),
        33 => Some(SzErrorType::SzNotFoundError),
        48 => Some(SzErrorType::SzNotInitializedError),
        87 => Some(SzErrorType::SzUnhandledError),
        999 => Some(SzErrorType::SzLicenseError),
        1000 => Some(SzErrorType::SzDatabaseError),
        1006 => Some(SzErrorType::SzDatabaseConnectionLostError),
        1008 => Some(SzErrorType::SzDatabaseTransientError),
        2207 => Some(SzErrorType::SzUnknownDataSourceError),
        7245 => Some(SzErrorType::SzReplaceConflictError),
        _ => None,
    }
}

/// The kind that an error type is reported as; the plain `SzError` type is
/// reported as `General`.
pub open spec fn error_type_kind(error_type: SzErrorType) -> SzErrorKind {
    match error_type {
        SzErrorType::SzBadInputError => SzErrorKind::BadInput,
        SzErrorType::SzConfigurationError => SzErrorKind::Configuration,
        SzErrorType::SzDatabaseConnectionLostError => SzErrorKind::DatabaseConnectionLost,
        SzErrorType::SzDatabaseError => SzErrorKind::Database,
        SzErrorType::SzDatabaseTransientError => SzErrorKind::DatabaseTransient,
        SzErrorType::SzError => SzErrorKind::General,
        SzErrorType::SzLicenseError => SzErrorKind::License,
        SzErrorType::SzNotFoundError => SzErrorKind::NotFound,
        SzErrorType::SzNotInitializedError => SzErrorKind::NotInitialized,
        SzErrorType::SzReplaceConflictError => SzErrorKind::ReplaceConflict,
        SzErrorType::SzRetryTimeoutExceededError => SzErrorKind::RetryTimeoutExceeded,
        SzErrorType::SzUnhandledError => SzErrorKind::Unhandled,
        SzErrorType::SzUnknownDataSourceError => SzErrorKind::UnknownDataSource,
    }
}

/// The kind derived from an error code: the kind of its error type, or the
/// root `SzError` for a code outside the table.
pub open spec fn kind_for_code(code: i64) -> SzErrorKind {
    match code_error_type(code) {
        Some(error_type) => error_type_kind(error_type),
        None => SzErrorKind::SzError,
    }
}

/// The kind given to an error created from a code: the kind of the code's
/// error type, or `General` for a code outside the table.
pub open spec fn code_kind_or_general(code: i64) -> SzErrorKind {
    match code_error_type(code) {
        Some(error_type) => error_type_kind(error_type),
        None => SzErrorKind::General,
    }
}

/// A code gives the root kind `SzError` exactly when it is outside the
/// table: every error type is reported below the root.
pub proof fn law_unknown_codes_give_the_root(code: i64)
    ensures
        code_error_type(code) is None <==> kind_for_code(code) == SzErrorKind::SzError,
{
}

/// Creating an error from a known code gives the kind that setting the
/// code derives; only codes outside the table differ (`General` against the
/// root).
pub proof fn law_from_code_agrees_on_known_codes(code: i64)
    ensures
        code_error_type(code) is Some ==> code_kind_or_general(code) == kind_for_code(code),
        code_error_type(code) is None ==> code_kind_or_general(code) == SzErrorKind::General
            && kind_for_code(code) == SzErrorKind::SzError,
{
}

/// Different error types are reported as different kinds, and each as a
/// kind below the root: the plain `SzError` type as the head `General`, the
/// bad-input type as the head `BadInput`, and every other type as a leaf of
/// the kind tree (a kind that heads no family).
pub proof fn law_error_types_report_distinct_kinds(a: SzErrorType, b: SzErrorType)
    ensures
        a != b ==> error_type_kind(a) != error_type_kind(b),
        error_type_kind(a) != SzErrorKind::SzError,
        a == SzErrorType::SzError <==> error_type_kind(a) == SzErrorKind::General,
        a == SzErrorType::SzBadInputError <==> error_type_kind(a) == SzErrorKind::BadInput,
        a != SzErrorType::SzError && a != SzErrorType::SzBadInputError ==> crate::kind::family(error_type_kind(a)) != Some(
            error_type_kind(a),
        ),
{
}

impl From<SzErrorType> for SzErrorKind {
    fn from(value: SzErrorType) -> (kind: Self) {
        match value {
            SzErrorType::SzBadInputError => SzErrorKind::BadInput,
            SzErrorType::SzConfigurationError => SzErrorKind::Configuration,
            SzErrorType::SzDatabaseConnectionLostError => SzErrorKind::DatabaseConnectionLost,
            SzErrorType::SzDatabaseError => SzErrorKind::Database,
            SzErrorType::SzDatabaseTransientError => SzErrorKind::DatabaseTransient,
            SzErrorType::SzError => SzErrorKind::General,
            SzErrorType::SzLicenseError => SzErrorKind::License,
            SzErrorType::SzNotFoundError => SzErrorKind::NotFound,
            SzErrorType::SzNotInitializedError => SzErrorKind::NotInitialized,
            SzErrorType::SzReplaceConflictError => SzErrorKind::ReplaceConflict,
            SzErrorType::SzRetryTimeoutExceededError => SzErrorKind::RetryTimeoutExceeded,
            SzErrorType::SzUnhandledError => SzErrorKind::Unhandled,
            SzErrorType::SzUnknownDataSourceError => SzErrorKind::UnknownDataSource,
        }
    }
}

impl vstd::std_specs::convert::FromSpecImpl<SzErrorType> for SzErrorKind {
    open spec fn obeys_from_spec() -> bool {
        true
    }

    open spec fn from_spec(v: SzErrorType) -> SzErrorKind {
        error_type_kind(v)
    }
}

/// Looks up the error type of a Senzing error code.
pub fn error_type_of_code(code: i64) -> (error_type: Option<SzErrorType>)
    ensures
        error_type == code_error_type(code),
{
    match code {
        0 | 5 => Some(SzErrorType::SzError),
        2 => Some(SzErrorType::SzBadInputError),
        10 => Some(SzErrorType::SzRetryTimeoutExceededError),
        14 => Some(SzErrorType::SzConfigurationError),
        33 => Some(SzErrorType::SzNotFoundError),
        48 => Some(SzErrorType::SzNotInitializedError),
        87 => Some(SzErrorType::SzUnhandledError),
        999 => Some(SzErrorType::SzLicenseError),
        1000 => Some(SzErrorType::SzDatabaseError),
        1006 => Some(SzErrorType::SzDatabaseConnectionLostError),
        1008 => Some(SzErrorType::SzDatabaseTransientError),
        2207 => Some(SzErrorType::SzUnknownDataSourceError),
        7245 => Some(SzErrorType::SzReplaceConflictError),
        _ => None,
    }
}

/// The kind derived from a Senzing error code; codes outside the table
/// give the root kind `SzError`.
pub fn kind_of_code(code: i64) -> (kind: SzErrorKind)
    ensures
        kind == kind_for_code(code),
{
    match error_type_of_code(code) {
        Some(error_type) => SzErrorKind::from(error_type),
        None => SzErrorKind::default(),
    }
}

/// The kind of an error created from a Senzing error code; codes outside
/// the table give `General`.
pub fn kind_of_code_or_general(code: i64) -> (kind: SzErrorKind)
    ensures
        kind == code_kind_or_general(code),
{
    match error_type_of_code(code) {
        Some(error_type) => SzErrorKind::from(error_type),
        None => SzErrorKind::General,
    }
}

} // verus!
