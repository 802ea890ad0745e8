//! The result type of Senzing SDK operations and its error-classification
//! helpers.
use vstd::prelude::*;
use crate::error::SzError;
use crate::kind::{in_family, is_database_kind, SzErrorKind};

verus! {

/// Result type of Senzing SDK operations.
pub type SzResult<T> = Result<T, SzError>;

/// `r` is an error in the given family.
pub open spec fn err_in_family<T>(r: SzResult<T>, head: SzErrorKind) -> bool {
    r matches Err(e) && in_family(e@.kind, head)
}

/// A value becomes `Ok(Some(value))`, a retryable error `Ok(None)`; other
/// errors stay as they are.
pub open spec fn retryable_filtered<T>(r: SzResult<T>) -> Result<Option<T>, SzError> {
    match r {
        Ok(v) => Ok(Some(v)),
        Err(e) => if in_family(e@.kind, SzErrorKind::Retryable) {
            Ok(None)
        } else {
            Err(e)
        },
    }
}

/// Filtering retryable errors empties exactly the retryable errors, keeps
/// every value, and lets the other errors through unchanged.
pub proof fn law_filter_retryable_partition<T>(r: SzResult<T>)
    ensures
        retryable_filtered(r) == Ok::<Option<T>, SzError>(None) <==> err_in_family(
            r,
            SzErrorKind::Retryable,
        ),
        r matches Ok(v) ==> retryable_filtered(r) == Ok::<Option<T>, SzError>(Some(v)),
        retryable_filtered(r) is Err <==> (r is Err && !err_in_family(r, SzErrorKind::Retryable)),
        retryable_filtered(r) matches Err(e) ==> r == Err::<T, SzError>(e),
{
}

/// Error-classification helpers for [`SzResult<T>`], to handle retryable
/// errors inline.
pub trait SzResultExt<T>: Sized {
    /// The result this value is.
    spec fn as_result(&self) -> SzResult<T>;

    /// If the error is retryable, calls `f` on it; otherwise returns the
    /// result unchanged.
    fn or_retry<F>(self, f: F) -> (r: SzResult<T>) where F: FnOnce(SzError) -> SzResult<T>
        requires
            match self.as_result() {
                Err(e) => in_family(e@.kind, SzErrorKind::Retryable) ==> call_requires(f, (e,)),
                Ok(_) => true,
            },
        ensures
            match self.as_result() {
                Ok(v) => r == Ok::<T, SzError>(v),
                Err(e) => if in_family(e@.kind, SzErrorKind::Retryable) {
                    call_ensures(f, (e,), r)
                } else {
                    r == Err::<T, SzError>(e)
                },
            },
    ;

    /// Turns a retryable error into `Ok(None)` and a value into `Ok(Some(value))`;
    /// other errors are returned unchanged.
    fn filter_retryable(self) -> (r: Result<Option<T>, SzError>)
        ensures
            r == retryable_filtered(self.as_result()),
    ;

    /// Returns `true` if the result is an error and that error is retryable.
    fn is_retryable_err(&self) -> (b: bool)
        ensures
            b == err_in_family(self.as_result(), SzErrorKind::Retryable),
    ;

    /// Returns `true` if the result is an error and that error is unrecoverable.
    fn is_unrecoverable_err(&self) -> (b: bool)
        ensures
            b == err_in_family(self.as_result(), SzErrorKind::Unrecoverable),
    ;

    /// Returns `true` if the result is an error and that error is bad input.
    fn is_bad_input_err(&self) -> (b: bool)
        ensures
            b == err_in_family(self.as_result(), SzErrorKind::BadInput),
    ;

    /// Returns `true` if the result is an error and that error is general.
    fn is_general_err(&self) -> (b: bool)
        ensures
            b == err_in_family(self.as_result(), SzErrorKind::General),
    ;

    /// Returns `true` if the result is an error and that error is database-related.
    fn is_database_err(&self) -> (b: bool)
        ensures
            b == (self.as_result() matches Err(e) && is_database_kind(e@.kind)),
    ;
}

impl<T> SzResultExt<T> for SzResult<T> {
    open spec fn as_result(&self) -> SzResult<T> {
        *self
    }

    fn or_retry<F>(self, f: F) -> (r: SzResult<T>) where F: FnOnce(SzError) -> SzResult<T> {
        match self {
            Ok(v) => Ok(v),
            Err(e) => {
                if e.is_retryable() {
                    f(e)
                } else {
                    Err(e)
                }
            },
        }
    }

    fn filter_retryable(self) -> (r: Result<Option<T>, SzError>) {
        match self {
            Ok(v) => Ok(Some(v)),
            Err(e) => {
                if e.is_retryable() {
                    Ok(None)
                } else {
                    Err(e)
                }
            },
        }
    }

    fn is_retryable_err(&self) -> (b: bool) {
        match self {
            Err(e) => e.is_retryable(),
            Ok(_) => false,
        }
    }

    fn is_unrecoverable_err(&self) -> (b: bool) {
        match self {
            Err(e) => e.is_unrecoverable(),
            Ok(_) => false,
        }
    }

    fn is_bad_input_err(&self) -> (b: bool) {
        match self {
            Err(e) => e.is_bad_input(),
            Ok(_) => false,
        }
    }

    fn is_general_err(&self) -> (b: bool) {
        match self {
            Err(e) => e.is_general(),
            Ok(_) => false,
        }
    }

    fn is_database_err(&self) -> (b: bool) {
        match self {
            Err(e) => e.is_database(),
            Ok(_) => false,
        }
    }
}

} // verus!
