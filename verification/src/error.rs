//! The Senzing error value, [`SzError`], and the error chains it lives in.
//!
//! An [`SzError`] carries an optional numeric Senzing error code, a message,
//! an [`SzErrorKind`] that classifies it, an optional [`SzComponent`] naming
//! the subsystem that raised it, optional supplementary details, and an
//! optional source error.  Unless the kind was set explicitly (by a named
//! constructor, [`SzError::with_kind`] or the conversion from a kind),
//! setting a code derives the kind from the code.
//!
//! [`AnyError`] is an error together with its chain of causes, the way
//! `std::error::Error` values nest through `source()`: each link is either a
//! Senzing error or some other error known by its display text.
use vstd::prelude::*;
use crate::decimal::{decimal_text, push_decimal};
use crate::errortypes::{code_kind_or_general, kind_for_code, kind_of_code, kind_of_code_or_general};
use crate::kind::{
    component_name,
    family,
    in_family,
    is_database_kind,
    kind_category,
    kind_hierarchy,
    kind_label,
    kind_matches,
    kind_severity,
    SzComponent,
    SzErrorKind,
};

verus! {

/// Text that can become an error message or error details.
pub trait MessageText {
    /// The characters of the text.
    spec fn text(&self) -> Seq<char>;

    /// Converts the text into an owned string with the same characters.
    fn into_string(self) -> (s: String)
        ensures
            s@ == self.text(),
    ;
}

impl<'a> MessageText for &'a str {
    open spec fn text(&self) -> Seq<char> {
        (*self)@
    }

    fn into_string(self) -> (s: String) {
        self.to_owned()
    }
}

impl MessageText for String {
    open spec fn text(&self) -> Seq<char> {
        self@
    }

    fn into_string(self) -> (s: String) {
        self
    }
}

/// The abstract value of an [`SzError`]: its fields, with strings seen as
/// character sequences.
#[verifier::ext_equal]
pub struct SzErrorView {
    pub code: Option<i64>,
    pub message: Seq<char>,
    pub kind: SzErrorKind,
    pub kind_explicit: bool,
    pub component: Option<SzComponent>,
    pub details: Option<Seq<char>>,
    pub source: Option<AnyError>,
}

/// An error with only a message and a kind: no code, component, details or
/// source.
pub open spec fn bare_error(message: Seq<char>, kind: SzErrorKind, kind_explicit: bool) -> SzErrorView {
    SzErrorView {
        code: None,
        message,
        kind,
        kind_explicit,
        component: None,
        details: None,
        source: None,
    }
}

/// The display text of an error: the kind's label, the code when there is
/// one, the message, and the details in brackets when there are some, as in
/// `"bad input (code 2): invalid [field=name]"`.
pub open spec fn error_text(e: SzErrorView) -> Seq<char> {
    let label = kind_label(e.kind);
    match (e.code, e.details) {
        (Some(code), Some(details)) => label + " (code "@ + decimal_text(code as int) + "): "@
            + e.message + " ["@ + details + "]"@,
        (Some(code), None) => label + " (code "@ + decimal_text(code as int) + "): "@ + e.message,
        (None, Some(details)) => label + ": "@ + e.message + " ["@ + details + "]"@,
        (None, None) => label + ": "@ + e.message,
    }
}

/// The effect of setting a code: the code is stored and, unless the kind
/// was set explicitly, the kind is derived from the code.
pub open spec fn with_code_view(e: SzErrorView, code: i64) -> SzErrorView {
    SzErrorView {
        code: Some(code),
        kind: if e.kind_explicit {
            e.kind
        } else {
            kind_for_code(code)
        },
        ..e
    }
}

/// The effect of setting a kind: the kind is stored and marked explicit.
pub open spec fn with_kind_view(e: SzErrorView, kind: SzErrorKind) -> SzErrorView {
    SzErrorView { kind, kind_explicit: true, ..e }
}

/// Setting a kind explicitly fixes it: a code set afterwards is stored but
/// does not change the kind.
pub proof fn law_explicit_kind_survives_code(e: SzErrorView, kind: SzErrorKind, code: i64)
    ensures
        with_code_view(with_kind_view(e, kind), code).kind == kind,
        with_code_view(with_kind_view(e, kind), code).code == Some(code),
{
}

/// Without an explicit kind, setting a code derives the kind from the code.
pub proof fn law_code_derives_kind(e: SzErrorView, code: i64)
    requires
        !e.kind_explicit,
    ensures
        with_code_view(e, code).kind == kind_for_code(code),
{
}

/// Setting a code twice is the same as setting only the second code.
pub proof fn law_last_code_wins(e: SzErrorView, first: i64, second: i64)
    ensures
        with_code_view(with_code_view(e, first), second) == with_code_view(e, second),
{
    assert(with_code_view(with_code_view(e, first), second) =~= with_code_view(e, second));
}

/// Setting a kind after a code overrides the derived kind and keeps the code.
pub proof fn law_kind_overrides_code(e: SzErrorView, code: i64, kind: SzErrorKind)
    ensures
        with_kind_view(with_code_view(e, code), kind).kind == kind,
        with_kind_view(with_code_view(e, code), kind).code == Some(code),
{
}

/// The first Senzing error of a chain that starts with a Senzing error is
/// that error; a chain that starts with another error has the first
/// Senzing error of its source, and none when it has no source.
pub proof fn law_first_sz_error_of_links(e: SzError, message: String, source: AnyError)
    ensures
        AnyError::Sz(e).first_sz_error() == Some(e),
        (AnyError::Other { message, source: Some(Box::new(source)) }).first_sz_error()
            == source.first_sz_error(),
        (AnyError::Other { message, source: None }).first_sz_error() is None,
{
}

/// Error type for the Senzing SDK, following the `std::io::Error` /
/// `io::ErrorKind` pattern.
#[derive(Debug)]
#[non_exhaustive]
pub struct SzError {
    code: Option<i64>,
    message: String,
    kind: SzErrorKind,
    kind_explicit: bool,
    component: Option<SzComponent>,
    details: Option<String>,
    source: Option<Box<AnyError>>,
}

/// An error with its chain of causes.
#[derive(Debug)]
pub enum AnyError {
    /// A Senzing error; its own source continues the chain.
    Sz(SzError),
    /// Any other error, known by its display text, and the error that caused it.
    Other { message: String, source: Option<Box<AnyError>> },
}

impl View for SzError {
    type V = SzErrorView;

    closed spec fn view(&self) -> SzErrorView {
        SzErrorView {
            code: self.code,
            message: self.message@,
            kind: self.kind,
            kind_explicit: self.kind_explicit,
            component: self.component,
            details: match self.details {
                Some(d) => Some(d@),
                None => None,
            },
            source: match self.source {
                Some(s) => Some(*s),
                None => None,
            },
        }
    }
}

impl AnyError {
    /// The first Senzing error in the chain, starting with this error itself.
    pub open spec fn first_sz_error(self) -> Option<SzError>
        decreases self,
    {
        match self {
            AnyError::Sz(e) => Some(e),
            AnyError::Other { message: _, source: Some(s) } => s.first_sz_error(),
            AnyError::Other { message: _, source: None } => None,
        }
    }

    /// Some Senzing error in the chain has a kind that satisfies `p`: the
    /// chain is walked through plain links and through each Senzing error's
    /// own source.
    pub open spec fn any_sz_kind(self, p: spec_fn(SzErrorKind) -> bool) -> bool
        decreases self,
    {
        match self {
            AnyError::Sz(e) => p(e@.kind) || match e@.source {
                Some(s) => s.any_sz_kind(p),
                None => false,
            },
            AnyError::Other { message: _, source: Some(s) } => s.any_sz_kind(p),
            AnyError::Other { message: _, source: None } => false,
        }
    }

    /// The next error in the chain.
    pub open spec fn next(self) -> Option<AnyError> {
        match self {
            AnyError::Sz(e) => e@.source,
            AnyError::Other { message: _, source: Some(s) } => Some(*s),
            AnyError::Other { message: _, source: None } => None,
        }
    }

    /// The display text of this error.
    pub open spec fn text(self) -> Seq<char> {
        match self {
            AnyError::Sz(e) => error_text(e@),
            AnyError::Other { message, source: _ } => message@,
        }
    }

    /// Returns the error that caused this one, if any.
    pub fn source(&self) -> (cause: Option<&AnyError>)
        ensures
            match cause {
                Some(c) => self.next() == Some(*c),
                None => self.next() is None,
            },
    {
        match self {
            AnyError::Sz(e) => e.source(),
            AnyError::Other { message: _, source: Some(s) } => Some(&**s),
            AnyError::Other { message: _, source: None } => None,
        }
    }

    /// Returns the display text of this error.
    pub fn to_string(&self) -> (text: String)
        ensures
            text@ == self.text(),
    {
        match self {
            AnyError::Sz(e) => e.to_string(),
            AnyError::Other { message, source: _ } => message.clone(),
        }
    }
}

impl From<SzError> for AnyError {
    fn from(e: SzError) -> (any: Self) {
        AnyError::Sz(e)
    }
}

impl vstd::std_specs::convert::FromSpecImpl<SzError> for AnyError {
    open spec fn obeys_from_spec() -> bool {
        true
    }

    open spec fn from_spec(v: SzError) -> AnyError {
        AnyError::Sz(v)
    }
}

fn clone_error(e: &SzError) -> (copy: SzError)
    ensures
        copy == *e,
    decreases e,
{
    SzError {
        code: e.code,
        message: e.message.clone(),
        kind: e.kind,
        kind_explicit: e.kind_explicit,
        component: e.component,
        details: match &e.details {
            Some(d) => Some(d.clone()),
            None => None,
        },
        source: match &e.source {
            Some(s) => Some(Box::new(clone_chain(&**s))),
            None => None,
        },
    }
}

fn clone_chain(c: &AnyError) -> (copy: AnyError)
    ensures
        copy == *c,
    decreases c,
{
    match c {
        AnyError::Sz(e) => AnyError::Sz(clone_error(e)),
        AnyError::Other { message, source } => AnyError::Other {
            message: message.clone(),
            source: match source {
                Some(s) => Some(Box::new(clone_chain(&**s))),
                None => None,
            },
        },
    }
}

impl Clone for SzError {
    /// Clones the error, its source chain included.
    fn clone(&self) -> (copy: Self)
        ensures
            copy == *self,
    {
        clone_error(self)
    }
}

impl Clone for AnyError {
    /// Clones the error and its whole chain.
    fn clone(&self) -> (copy: Self)
        ensures
            copy == *self,
    {
        clone_chain(self)
    }
}


impl SzError {
    /// Creates an `SzError` with a message and the default kind, `SzError`.
    pub fn new<M: MessageText>(message: M) -> (e: Self)
        ensures
            e@ == bare_error(message.text(), SzErrorKind::SzError, false),
    {
        let e = SzError {
            code: None,
            message: message.into_string(),
            kind: SzErrorKind::default(),
            kind_explicit: false,
            component: None,
            details: None,
            source: None,
        };
        assert(e@ =~= bare_error(message.text(), SzErrorKind::SzError, false));
        e
    }

    /// Creates the `SzError` for a Senzing error code: the kind is that of
    /// the code's error type, and `General` for a code outside the table.
    pub fn from_code<M: MessageText>(code: i64, message: M) -> (e: Self)
        ensures
            e@ == (SzErrorView {
                code: Some(code),
                kind: code_kind_or_general(code),
                ..bare_error(message.text(), SzErrorKind::SzError, false)
            }),
    {
        let e = SzError {
            code: Some(code),
            message: message.into_string(),
            kind: kind_of_code_or_general(code),
            kind_explicit: false,
            component: None,
            details: None,
            source: None,
        };
        assert(e@ =~= (SzErrorView {
            code: Some(code),
            kind: code_kind_or_general(code),
            ..bare_error(message.text(), SzErrorKind::SzError, false)
        }));
        e
    }

    /// Creates a bad-input error.
    pub fn bad_input<M: MessageText>(message: M) -> (e: Self)
        ensures
            e@ == bare_error(message.text(), SzErrorKind::BadInput, true),
    {
        Self::new(message).with_kind(SzErrorKind::BadInput)
    }

    /// Creates a configuration error.
    pub fn configuration<M: MessageText>(message: M) -> (e: Self)
        ensures
            e@ == bare_error(message.text(), SzErrorKind::Configuration, true),
    {
        Self::new(message).with_kind(SzErrorKind::Configuration)
    }

    /// Creates a database error.
    pub fn database<M: MessageText>(message: M) -> (e: Self)
        ensures
            e@ == bare_error(message.text(), SzErrorKind::Database, true),
    {
        Self::new(message).with_kind(SzErrorKind::Database)
    }

    /// Creates a database-connection-lost error.
    pub fn database_connection_lost<M: MessageText>(message: M) -> (e: Self)
        ensures
            e@ == bare_error(message.text(), SzErrorKind::DatabaseConnectionLost, true),
    {
        Self::new(message).with_kind(SzErrorKind::DatabaseConnectionLost)
    }

    /// Creates a database-transient error.
    pub fn database_transient<M: MessageText>(message: M) -> (e: Self)
        ensures
            e@ == bare_error(message.text(), SzErrorKind::DatabaseTransient, true),
    {
        Self::new(message).with_kind(SzErrorKind::DatabaseTransient)
    }

    /// Creates a general error.
    pub fn general<M: MessageText>(message: M) -> (e: Self)
        ensures
            e@ == bare_error(message.text(), SzErrorKind::General, true),
    {
        Self::new(message).with_kind(SzErrorKind::General)
    }

    /// Creates a license error.
    pub fn license<M: MessageText>(message: M) -> (e: Self)
        ensures
            e@ == bare_error(message.text(), SzErrorKind::License, true),
    {
        Self::new(message).with_kind(SzErrorKind::License)
    }

    /// Creates a not-found error.
    pub fn not_found<M: MessageText>(message: M) -> (e: Self)
        ensures
            e@ == bare_error(message.text(), SzErrorKind::NotFound, true),
    {
        Self::new(message).with_kind(SzErrorKind::NotFound)
    }

    /// Creates a not-initialized error.
    pub fn not_initialized<M: MessageText>(message: M) -> (e: Self)
        ensures
            e@ == bare_error(message.text(), SzErrorKind::NotInitialized, true),
    {
        Self::new(message).with_kind(SzErrorKind::NotInitialized)
    }

    /// Creates a replace-conflict error.
    pub fn replace_conflict<M: MessageText>(message: M) -> (e: Self)
        ensures
            e@ == bare_error(message.text(), SzErrorKind::ReplaceConflict, true),
    {
        Self::new(message).with_kind(SzErrorKind::ReplaceConflict)
    }

    /// Creates a retryable error.
    pub fn retryable<M: MessageText>(message: M) -> (e: Self)
        ensures
            e@ == bare_error(message.text(), SzErrorKind::Retryable, true),
    {
        Self::new(message).with_kind(SzErrorKind::Retryable)
    }

    /// Creates a retry-timeout-exceeded error.
    pub fn retry_timeout_exceeded<M: MessageText>(message: M) -> (e: Self)
        ensures
            e@ == bare_error(message.text(), SzErrorKind::RetryTimeoutExceeded, true),
    {
        Self::new(message).with_kind(SzErrorKind::RetryTimeoutExceeded)
    }

    /// Creates an SDK error.
    pub fn sdk<M: MessageText>(message: M) -> (e: Self)
        ensures
            e@ == bare_error(message.text(), SzErrorKind::Sdk, true),
    {
        Self::new(message).with_kind(SzErrorKind::Sdk)
    }

    /// Creates an unhandled error.
    pub fn unhandled<M: MessageText>(message: M) -> (e: Self)
        ensures
            e@ == bare_error(message.text(), SzErrorKind::Unhandled, true),
    {
        Self::new(message).with_kind(SzErrorKind::Unhandled)
    }

    /// Creates an unknown-data-source error.
    pub fn unknown_data_source<M: MessageText>(message: M) -> (e: Self)
        ensures
            e@ == bare_error(message.text(), SzErrorKind::UnknownDataSource, true),
    {
        Self::new(message).with_kind(SzErrorKind::UnknownDataSource)
    }

    /// Creates an unrecoverable error.
    pub fn unrecoverable<M: MessageText>(message: M) -> (e: Self)
        ensures
            e@ == bare_error(message.text(), SzErrorKind::Unrecoverable, true),
    {
        Self::new(message).with_kind(SzErrorKind::Unrecoverable)
    }

    /// Wraps a non-Senzing error as an `Sdk` error: the error's display text
    /// becomes the message and the error becomes the source.
    pub fn wrap(source: AnyError) -> (e: Self)
        ensures
            e@ == (SzErrorView {
                source: Some(source),
                ..bare_error(source.text(), SzErrorKind::Sdk, true)
            }),
    {
        let message = source.to_string();
        Self::new(message).with_kind(SzErrorKind::Sdk).with_source(source)
    }

    /// Sets the error code.  Unless the kind was set explicitly, the kind is
    /// derived from the code, defaulting to `SzError` for unknown codes; an
    /// explicitly set kind is kept.
    pub fn with_code(self, code: i64) -> (e: Self)
        ensures
            e@ == with_code_view(self@, code),
    {
        let mut e = self;
        if !e.kind_explicit {
            e.kind = kind_of_code(code);
        }
        e.code = Some(code);
        assert(e@ =~= with_code_view(self@, code));
        e
    }

    /// Sets the component that produced this error.
    pub fn with_component(self, component: SzComponent) -> (e: Self)
        ensures
            e@ == (SzErrorView { component: Some(component), ..self@ }),
    {
        let mut e = self;
        e.component = Some(component);
        assert(e@ =~= (SzErrorView { component: Some(component), ..self@ }));
        e
    }

    /// Sets supplementary details for this error.
    pub fn with_details<M: MessageText>(self, details: M) -> (e: Self)
        ensures
            e@ == (SzErrorView { details: Some(details.text()), ..self@ }),
    {
        let mut e = self;
        e.details = Some(details.into_string());
        assert(e@ =~= (SzErrorView { details: Some(details.text()), ..self@ }));
        e
    }

    /// Sets the error kind; the kind is then kept when a code is set.
    pub fn with_kind(self, kind: SzErrorKind) -> (e: Self)
        ensures
            e@ == with_kind_view(self@, kind),
    {
        let mut e = self;
        e.kind = kind;
        e.kind_explicit = true;
        assert(e@ =~= with_kind_view(self@, kind));
        e
    }

    /// Sets the error message.
    pub fn with_message<M: MessageText>(self, message: M) -> (e: Self)
        ensures
            e@ == (SzErrorView { message: message.text(), ..self@ }),
    {
        let mut e = self;
        e.message = message.into_string();
        assert(e@ =~= (SzErrorView { message: message.text(), ..self@ }));
        e
    }

    /// Sets the source (cause) of this error.
    pub fn with_source(self, source: AnyError) -> (e: Self)
        ensures
            e@ == (SzErrorView { source: Some(source), ..self@ }),
    {
        let mut e = self;
        e.source = Some(Box::new(source));
        assert(e@ =~= (SzErrorView { source: Some(source), ..self@ }));
        e
    }

    /// Returns the numeric Senzing error code, if set.
    pub fn code(&self) -> (code: Option<i64>)
        ensures
            code == self@.code,
    {
        self.code
    }

    /// Returns the human-readable error message.
    pub fn message(&self) -> (message: &str)
        ensures
            message@ == self@.message,
    {
        self.message.as_str()
    }

    /// Returns the kind that classifies this error.
    pub fn kind(&self) -> (kind: SzErrorKind)
        ensures
            kind == self@.kind,
    {
        self.kind
    }

    /// Returns the component that produced this error, if set.
    pub fn component(&self) -> (component: Option<SzComponent>)
        ensures
            component == self@.component,
    {
        self.component
    }

    /// Returns the supplementary details, if set.
    pub fn details(&self) -> (details: Option<&str>)
        ensures
            match details {
                Some(d) => self@.details == Some(d@),
                None => self@.details is None,
            },
    {
        match &self.details {
            Some(d) => Some(d.as_str()),
            None => None,
        }
    }

    /// Returns the component name, or `""` if no component is set.
    pub fn component_name(&self) -> (name: &str)
        ensures
            name@ == match self@.component {
                Some(c) => component_name(c),
                None => Seq::<char>::empty(),
            },
    {
        proof {
            reveal_strlit("");
        }
        match self.component {
            Some(c) => c.as_str(),
            None => "",
        }
    }

    /// Returns the error that caused this one, if set.
    pub fn source(&self) -> (cause: Option<&AnyError>)
        ensures
            match cause {
                Some(c) => self@.source == Some(*c),
                None => self@.source is None,
            },
    {
        match &self.source {
            Some(s) => Some(&**s),
            None => None,
        }
    }

    /// Returns `true` if this error's kind is exactly `kind`.
    pub fn is_kind(&self, kind: SzErrorKind) -> (b: bool)
        ensures
            b == (self@.kind == kind),
    {
        self.kind == kind
    }

    /// Hierarchy-aware kind check; see [`SzErrorKind::is`].
    pub fn is(&self, kind: SzErrorKind) -> (b: bool)
        ensures
            b == kind_matches(self@.kind, kind),
    {
        self.kind.is(kind)
    }

    /// Returns `true` if this is a bad input error (BadInput, NotFound, UnknownDataSource).
    pub fn is_bad_input(&self) -> (b: bool)
        ensures
            b == in_family(self@.kind, SzErrorKind::BadInput),
    {
        self.kind.is_bad_input()
    }

    /// Returns `true` if this is a general error (General, Configuration, ReplaceConflict, Sdk).
    pub fn is_general(&self) -> (b: bool)
        ensures
            b == in_family(self@.kind, SzErrorKind::General),
    {
        self.kind.is_general()
    }

    /// Returns `true` if this is a retryable error (Retryable, DatabaseConnectionLost,
    /// DatabaseTransient, RetryTimeoutExceeded).
    pub fn is_retryable(&self) -> (b: bool)
        ensures
            b == in_family(self@.kind, SzErrorKind::Retryable),
    {
        self.kind.is_retryable()
    }

    /// Returns `true` if this is an unrecoverable error (Unrecoverable, Database, License,
    /// NotInitialized, Unhandled).
    pub fn is_unrecoverable(&self) -> (b: bool)
        ensures
            b == in_family(self@.kind, SzErrorKind::Unrecoverable),
    {
        self.kind.is_unrecoverable()
    }

    /// Returns `true` if this is a database-related error, regardless of retryability.
    pub fn is_database(&self) -> (b: bool)
        ensures
            b == is_database_kind(self@.kind),
    {
        self.kind.is_database()
    }

    /// Returns `true`: every `SzError` is a Senzing error.
    pub fn is_sz_error(&self) -> (b: bool)
        ensures
            b,
    {
        self.kind.is_sz_error()
    }

    /// Returns the severity level of this error's kind.
    pub fn severity(&self) -> (level: &'static str)
        ensures
            level@ == kind_severity(self@.kind),
    {
        self.kind.severity()
    }

    /// Returns the category slug of this error's kind.
    pub fn category(&self) -> (slug: &'static str)
        ensures
            slug@ == kind_category(self@.kind),
    {
        self.kind.category()
    }

    /// Returns the hierarchy of this error's kind, ordered leaf-first.
    pub fn hierarchy(&self) -> (chain: &'static [SzErrorKind])
        ensures
            chain@ == kind_hierarchy(self@.kind),
    {
        self.kind.hierarchy()
    }

    /// Returns `true` if this is a configuration error.
    pub fn is_configuration(&self) -> (b: bool)
        ensures
            b == (self@.kind == SzErrorKind::Configuration),
    {
        self.kind.is_configuration()
    }

    /// Returns `true` if this is a license error.
    pub fn is_license(&self) -> (b: bool)
        ensures
            b == (self@.kind == SzErrorKind::License),
    {
        self.kind.is_license()
    }

    /// Returns `true` if this is a not-found error.
    pub fn is_not_found(&self) -> (b: bool)
        ensures
            b == (self@.kind == SzErrorKind::NotFound),
    {
        self.kind.is_not_found()
    }

    /// Returns `true` if this is a not-initialized error.
    pub fn is_not_initialized(&self) -> (b: bool)
        ensures
            b == (self@.kind == SzErrorKind::NotInitialized),
    {
        self.kind.is_not_initialized()
    }

    /// Returns `true` if this is a replace-conflict error.
    pub fn is_replace_conflict(&self) -> (b: bool)
        ensures
            b == (self@.kind == SzErrorKind::ReplaceConflict),
    {
        self.kind.is_replace_conflict()
    }

    /// Returns `true` if this is an SDK error.
    pub fn is_sdk(&self) -> (b: bool)
        ensures
            b == (self@.kind == SzErrorKind::Sdk),
    {
        self.kind.is_sdk()
    }

    /// Returns `true` if this is an unhandled error.
    pub fn is_unhandled(&self) -> (b: bool)
        ensures
            b == (self@.kind == SzErrorKind::Unhandled),
    {
        self.kind.is_unhandled()
    }

    /// Returns `true` if this is an unknown-data-source error.
    pub fn is_unknown_data_source(&self) -> (b: bool)
        ensures
            b == (self@.kind == SzErrorKind::UnknownDataSource),
    {
        self.kind.is_unknown_data_source()
    }

    /// Finds the first `SzError` in an error's chain: the error itself when
    /// it is one, else the first one among its sources.
    pub fn find_in_chain(err: &AnyError) -> (found: Option<&SzError>)
        ensures
            match found {
                Some(e) => err.first_sz_error() == Some(*e),
                None => err.first_sz_error() is None,
            },
        decreases err,
    {
        match err {
            AnyError::Sz(e) => Some(e),
            AnyError::Other { message: _, source: Some(s) } => Self::find_in_chain(&**s),
            AnyError::Other { message: _, source: None } => None,
        }
    }

    /// Returns the display text of this error; see [`error_text`].
    pub fn to_string(&self) -> (text: String)
        ensures
            text@ == error_text(self@),
    {
        proof {
            reveal_strlit(" (code ");
            reveal_strlit("): ");
            reveal_strlit(": ");
            reveal_strlit(" [");
            reveal_strlit("]");
        }
        let mut out = String::new();
        out.append(self.kind.label());
        match self.code {
            Some(code) => {
                out.append(" (code ");
                push_decimal(&mut out, code);
                out.append("): ");
            },
            None => {
                out.append(": ");
            },
        }
        out.append(self.message.as_str());
        match &self.details {
            Some(d) => {
                out.append(" [");
                out.append(d.as_str());
                out.append("]");
            },
            None => {},
        }
        assert(out@ =~= error_text(self@));
        out
    }
}

impl From<SzErrorKind> for SzError {
    /// An error of the given kind, set explicitly, with no code and an empty
    /// message.
    fn from(kind: SzErrorKind) -> (e: Self)
        ensures
            e@ == bare_error(Seq::empty(), kind, true),
    {
        let e = SzError {
            code: None,
            message: String::new(),
            kind,
            kind_explicit: true,
            component: None,
            details: None,
            source: None,
        };
        assert(e@ =~= bare_error(Seq::empty(), kind, true));
        e
    }
}

impl vstd::std_specs::convert::FromSpecImpl<SzErrorKind> for SzError {
    /// The result holds a fresh `String`, which no spec value names, so the
    /// conversion is described by the `ensures` of `from` instead.
    open spec fn obeys_from_spec() -> bool {
        false
    }

    open spec fn from_spec(v: SzErrorKind) -> SzError {
        arbitrary()
    }
}

/// The groups of kinds that the chain predicates of `SzErrorInspect` look for.
#[derive(Clone, Copy)]
pub(crate) enum KindGroup {
    BadInput,
    General,
    Retryable,
    Unrecoverable,
    Database,
}

/// The test of a kind group: a family, or the database kinds.
pub(crate) open spec fn group_test(group: KindGroup) -> spec_fn(SzErrorKind) -> bool {
    |k: SzErrorKind|
        match group {
            KindGroup::BadInput => in_family(k, SzErrorKind::BadInput),
            KindGroup::General => in_family(k, SzErrorKind::General),
            KindGroup::Retryable => in_family(k, SzErrorKind::Retryable),
            KindGroup::Unrecoverable => in_family(k, SzErrorKind::Unrecoverable),
            KindGroup::Database => is_database_kind(k),
        }
}

fn group_holds(group: KindGroup, kind: SzErrorKind) -> (b: bool)
    ensures
        b == group_test(group)(kind),
{
    match group {
        KindGroup::BadInput => kind.is_bad_input(),
        KindGroup::General => kind.is_general(),
        KindGroup::Retryable => kind.is_retryable(),
        KindGroup::Unrecoverable => kind.is_unrecoverable(),
        KindGroup::Database => kind.is_database(),
    }
}

/// Whether some Senzing error in the chain has a kind in `group`.
pub(crate) fn chain_has_group(err: &AnyError, group: KindGroup) -> (b: bool)
    ensures
        b == err.any_sz_kind(group_test(group)),
    decreases err,
{
    match err {
        AnyError::Sz(e) => sz_chain_has_group(e, group),
        AnyError::Other { message: _, source: Some(s) } => chain_has_group(&**s, group),
        AnyError::Other { message: _, source: None } => false,
    }
}

/// Whether the error, or some Senzing error among its sources, has a kind
/// in `group`.
pub(crate) fn sz_chain_has_group(e: &SzError, group: KindGroup) -> (b: bool)
    ensures
        b == AnyError::Sz(*e).any_sz_kind(group_test(group)),
    decreases e,
{
    if group_holds(group, e.kind) {
        true
    } else {
        match &e.source {
            Some(s) => chain_has_group(&**s, group),
            None => false,
        }
    }
}

/// If the error itself is an `SzError`, returns it; its sources are not
/// searched.
pub fn as_sz_error(err: &AnyError) -> (found: Option<&SzError>)
    ensures
        match found {
            Some(e) => *err == AnyError::Sz(*e),
            None => !(err is Sz),
        },
{
    match err {
        AnyError::Sz(e) => Some(e),
        AnyError::Other { .. } => None,
    }
}

/// Returns `true` if the error is an `SzError` of exactly the given kind.
pub fn is_kind(err: &AnyError, kind: SzErrorKind) -> (b: bool)
    ensures
        b == (err matches AnyError::Sz(e) && e@.kind == kind),
{
    match as_sz_error(err) {
        Some(e) => e.kind() == kind,
        None => false,
    }
}

/// Family-aware match of the direct check [`is`]: the root matches every
/// kind, each of the four family heads (`BadInput`, `General`, `Retryable`,
/// `Unrecoverable`) matches the kinds of its family, and any other kind
/// (`Database` included) matches only itself.
pub open spec fn kind_matches_family(kind: SzErrorKind, target: SzErrorKind) -> bool {
    ||| target == SzErrorKind::SzError
    ||| kind == target
    ||| family(kind) == Some(target)
}

/// Hierarchy-aware kind check: `true` if the error is an `SzError` whose
/// kind is `kind` or lies in the family that `kind` heads; the root
/// `SzError` matches every Senzing error.
pub fn is(err: &AnyError, kind: SzErrorKind) -> (b: bool)
    ensures
        b == (err matches AnyError::Sz(e) && kind_matches_family(e@.kind, kind)),
{
    match as_sz_error(err) {
        Some(e) => match kind {
            SzErrorKind::BadInput => e.is_bad_input(),
            SzErrorKind::General => e.is_general(),
            SzErrorKind::Retryable => e.is_retryable(),
            SzErrorKind::Unrecoverable => e.is_unrecoverable(),
            SzErrorKind::SzError => true,
            other => e.kind() == other,
        },
        None => false,
    }
}

/// Returns `true` if the error is an `SzError`.
pub fn is_sz_error(err: &AnyError) -> (b: bool)
    ensures
        b == (err is Sz),
{
    as_sz_error(err).is_some()
}

/// Returns `true` if the error is an `SzError` in the bad input category.
pub fn is_bad_input(err: &AnyError) -> (b: bool)
    ensures
        b == (err matches AnyError::Sz(e) && in_family(e@.kind, SzErrorKind::BadInput)),
{
    match as_sz_error(err) {
        Some(e) => e.is_bad_input(),
        None => false,
    }
}

/// Returns `true` if the error is an `SzError` in the general category.
pub fn is_general(err: &AnyError) -> (b: bool)
    ensures
        b == (err matches AnyError::Sz(e) && in_family(e@.kind, SzErrorKind::General)),
{
    match as_sz_error(err) {
        Some(e) => e.is_general(),
        None => false,
    }
}

/// Returns `true` if the error is an `SzError` in the retryable category.
pub fn is_retryable(err: &AnyError) -> (b: bool)
    ensures
        b == (err matches AnyError::Sz(e) && in_family(e@.kind, SzErrorKind::Retryable)),
{
    match as_sz_error(err) {
        Some(e) => e.is_retryable(),
        None => false,
    }
}

/// Returns `true` if the error is an `SzError` in the unrecoverable category.
pub fn is_unrecoverable(err: &AnyError) -> (b: bool)
    ensures
        b == (err matches AnyError::Sz(e) && in_family(e@.kind, SzErrorKind::Unrecoverable)),
{
    match as_sz_error(err) {
        Some(e) => e.is_unrecoverable(),
        None => false,
    }
}

/// The direct check [`is`] follows the families: a family head matches
/// exactly the kinds of its family, the root matches every kind, and any
/// other target (`Database` included) matches only itself.  On every target
/// but `Database` it agrees with [`SzErrorKind::is`].
pub proof fn law_free_is_follows_the_families(kind: SzErrorKind, target: SzErrorKind)
    ensures
        target == SzErrorKind::BadInput || target == SzErrorKind::General || target
            == SzErrorKind::Retryable || target == SzErrorKind::Unrecoverable
            ==> (kind_matches_family(kind, target) <==> in_family(kind, target)),
        target == SzErrorKind::SzError ==> kind_matches_family(kind, target),
        target != SzErrorKind::SzError && family(target) != Some(target) ==> (kind_matches_family(
            kind,
            target,
        ) <==> kind == target),
        target != SzErrorKind::Database ==> (kind_matches_family(kind, target) <==> kind_matches(
            kind,
            target,
        )),
{
}

/// The cause that a Senzing error holds is the next link of its chain: a
/// Senzing error given a source by [`SzError::with_source`] yields that
/// source from [`AnyError::source`], and one without a source ends the chain.
pub proof fn law_sz_link_continues_with_its_source(e: SzError, x: SzError, cause: AnyError)
    requires
        x@ == (SzErrorView { source: Some(cause), ..e@ }),
    ensures
        AnyError::Sz(x).next() == Some(cause),
        e@.source is None ==> AnyError::Sz(e).next() is None,
        e@.source matches Some(s) ==> AnyError::Sz(e).next() == Some(s),
{
}

/// Walking a chain visits each link and then the rest of the chain from the
/// link's cause: some Senzing error in the chain passes a test exactly when
/// this link is one that passes it or one further down the chain does, and
/// the first Senzing error of a chain that does not start with one is the
/// first one after the start.
pub proof fn law_chain_walk_follows_causes(err: AnyError, p: spec_fn(SzErrorKind) -> bool)
    ensures
        err.any_sz_kind(p) <==> ((err matches AnyError::Sz(e) && p(e@.kind)) || (err.next() matches Some(
            n,
        ) && n.any_sz_kind(p))),
        !(err is Sz) ==> err.first_sz_error() == match err.next() {
            Some(n) => n.first_sz_error(),
            None => None,
        },
{
}

} // verus!
