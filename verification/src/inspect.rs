//! Classifying errors by the first [`SzError`] in their chain of causes.
use vstd::prelude::*;
use crate::error::{chain_has_group, group_test, sz_chain_has_group, AnyError, KindGroup, SzError};
use crate::kind::{in_family, is_database_kind, kind_matches, kind_severity, SzComponent, SzErrorKind};

verus! {

/// Inspection of an error (or error chain) for an embedded [`SzError`].
///
/// Every method looks at the first `SzError` in the chain: the error itself
/// when it is one, else the first one among its sources.
pub trait SzErrorInspect {
    /// The first `SzError` in this error's chain, if any.
    spec fn chain_sz_error(&self) -> Option<SzError>;

    /// Some `SzError` in this error's chain, walked through plain errors and
    /// through each Senzing error's own source, has a kind satisfying `p`.
    spec fn chain_any_kind(&self, p: spec_fn(SzErrorKind) -> bool) -> bool;

    /// Returns the first `SzError` in the chain, if any.
    fn sz_error(&self) -> (found: Option<&SzError>)
        ensures
            match found {
                Some(e) => self.chain_sz_error() == Some(*e),
                None => self.chain_sz_error() is None,
            },
    ;

    /// Returns `true` if the chain contains a retryable `SzError`.
    fn is_sz_retryable(&self) -> (b: bool)
        ensures
            b == self.chain_any_kind(|k: SzErrorKind| in_family(k, SzErrorKind::Retryable)),
    ;

    /// Returns `true` if the chain contains an unrecoverable `SzError`.
    fn is_sz_unrecoverable(&self) -> (b: bool)
        ensures
            b == self.chain_any_kind(|k: SzErrorKind| in_family(k, SzErrorKind::Unrecoverable)),
    ;

    /// Returns `true` if the chain contains a bad-input `SzError`.
    fn is_sz_bad_input(&self) -> (b: bool)
        ensures
            b == self.chain_any_kind(|k: SzErrorKind| in_family(k, SzErrorKind::BadInput)),
    ;

    /// Returns `true` if the chain contains a general `SzError`.
    fn is_sz_general(&self) -> (b: bool)
        ensures
            b == self.chain_any_kind(|k: SzErrorKind| in_family(k, SzErrorKind::General)),
    ;

    /// Returns `true` if the chain contains a database-related `SzError`.
    fn is_sz_database(&self) -> (b: bool)
        ensures
            b == self.chain_any_kind(|k: SzErrorKind| is_database_kind(k)),
    ;

    /// Returns `true` if the chain contains any `SzError`.
    fn is_sz_error(&self) -> (b: bool)
        ensures
            b == self.chain_sz_error() is Some,
    {
        self.sz_error().is_some()
    }

    /// Hierarchy-aware kind check on the first `SzError` in the chain.
    fn is_sz(&self, kind: SzErrorKind) -> (b: bool)
        ensures
            b == (self.chain_sz_error() matches Some(e) && kind_matches(e@.kind, kind)),
    {
        match self.sz_error() {
            Some(e) => e.is(kind),
            None => false,
        }
    }

    /// Returns the component of the first `SzError` in the chain, if any.
    fn sz_component(&self) -> (component: Option<SzComponent>)
        ensures
            component == match self.chain_sz_error() {
                Some(e) => e@.component,
                None => None,
            },
    {
        match self.sz_error() {
            Some(e) => e.component(),
            None => None,
        }
    }

    /// Returns the severity of the first `SzError` in the chain, if any.
    fn sz_severity(&self) -> (level: Option<&'static str>)
        ensures
            match level {
                Some(s) => self.chain_sz_error() matches Some(e) && s@ == kind_severity(e@.kind),
                None => self.chain_sz_error() is None,
            },
    {
        match self.sz_error() {
            Some(e) => Some(e.severity()),
            None => None,
        }
    }
}

impl SzErrorInspect for AnyError {
    open spec fn chain_sz_error(&self) -> Option<SzError> {
        self.first_sz_error()
    }

    open spec fn chain_any_kind(&self, p: spec_fn(SzErrorKind) -> bool) -> bool {
        self.any_sz_kind(p)
    }

    fn sz_error(&self) -> (found: Option<&SzError>) {
        SzError::find_in_chain(self)
    }

    fn is_sz_retryable(&self) -> (b: bool) {
        assert(group_test(KindGroup::Retryable) =~= (|k: SzErrorKind| in_family(k, SzErrorKind::Retryable)));
        chain_has_group(self, KindGroup::Retryable)
    }

    fn is_sz_unrecoverable(&self) -> (b: bool) {
        assert(group_test(KindGroup::Unrecoverable) =~= (|k: SzErrorKind| in_family(k, SzErrorKind::Unrecoverable)));
        chain_has_group(self, KindGroup::Unrecoverable)
    }

    fn is_sz_bad_input(&self) -> (b: bool) {
        assert(group_test(KindGroup::BadInput) =~= (|k: SzErrorKind| in_family(k, SzErrorKind::BadInput)));
        chain_has_group(self, KindGroup::BadInput)
    }

    fn is_sz_general(&self) -> (b: bool) {
        assert(group_test(KindGroup::General) =~= (|k: SzErrorKind| in_family(k, SzErrorKind::General)));
        chain_has_group(self, KindGroup::General)
    }

    fn is_sz_database(&self) -> (b: bool) {
        assert(group_test(KindGroup::Database) =~= (|k: SzErrorKind| is_database_kind(k)));
        chain_has_group(self, KindGroup::Database)
    }
}

impl SzErrorInspect for SzError {
    open spec fn chain_sz_error(&self) -> Option<SzError> {
        Some(*self)
    }

    open spec fn chain_any_kind(&self, p: spec_fn(SzErrorKind) -> bool) -> bool {
        AnyError::Sz(*self).any_sz_kind(p)
    }

    fn sz_error(&self) -> (found: Option<&SzError>) {
        Some(self)
    }

    fn is_sz_retryable(&self) -> (b: bool) {
        assert(group_test(KindGroup::Retryable) =~= (|k: SzErrorKind| in_family(k, SzErrorKind::Retryable)));
        sz_chain_has_group(self, KindGroup::Retryable)
    }

    fn is_sz_unrecoverable(&self) -> (b: bool) {
        assert(group_test(KindGroup::Unrecoverable) =~= (|k: SzErrorKind| in_family(k, SzErrorKind::Unrecoverable)));
        sz_chain_has_group(self, KindGroup::Unrecoverable)
    }

    fn is_sz_bad_input(&self) -> (b: bool) {
        assert(group_test(KindGroup::BadInput) =~= (|k: SzErrorKind| in_family(k, SzErrorKind::BadInput)));
        sz_chain_has_group(self, KindGroup::BadInput)
    }

    fn is_sz_general(&self) -> (b: bool) {
        assert(group_test(KindGroup::General) =~= (|k: SzErrorKind| in_family(k, SzErrorKind::General)));
        sz_chain_has_group(self, KindGroup::General)
    }

    fn is_sz_database(&self) -> (b: bool) {
        assert(group_test(KindGroup::Database) =~= (|k: SzErrorKind| is_database_kind(k)));
        sz_chain_has_group(self, KindGroup::Database)
    }
}

/// What the first Senzing error of a chain shows, the chain contains: when
/// the first `SzError` has a kind satisfying `p`, some `SzError` of the chain
/// does.
pub proof fn law_first_sz_error_is_in_chain(err: AnyError, p: spec_fn(SzErrorKind) -> bool)
    ensures
        (err.first_sz_error() matches Some(e) && p(e@.kind)) ==> err.any_sz_kind(p),
    decreases err,
{
    match err {
        AnyError::Sz(_) => {},
        AnyError::Other { message: _, source: Some(s) } => {
            law_first_sz_error_is_in_chain(*s, p);
        },
        AnyError::Other { message: _, source: None } => {},
    }
}

/// A Senzing error counts for the chain predicates through a Senzing error
/// that it is the source of: an outer error with a retryable source is
/// reported retryable whatever its own kind.
pub proof fn law_nested_sz_error_counts(outer: SzError, p: spec_fn(SzErrorKind) -> bool)
    requires
        outer@.source matches Some(s) && s.any_sz_kind(p),
    ensures
        <SzError as SzErrorInspect>::chain_any_kind(&outer, p),
        <AnyError as SzErrorInspect>::chain_any_kind(&AnyError::Sz(outer), p),
{
}

/// Inspecting a Senzing error gives the same answer whether it is seen
/// directly, as the start of a chain, or as the source of another error.
pub proof fn law_inspection_sees_through_wrapping(e: SzError, message: String)
    ensures
        <SzError as SzErrorInspect>::chain_sz_error(&e) == Some(e),
        <AnyError as SzErrorInspect>::chain_sz_error(&AnyError::Sz(e)) == Some(e),
        <AnyError as SzErrorInspect>::chain_sz_error(
            &AnyError::Other { message, source: Some(Box::new(AnyError::Sz(e))) },
        ) == Some(e),
{
}

} // verus!
