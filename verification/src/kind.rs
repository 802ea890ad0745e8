//! Error classification: the components that raise errors and the tree of
//! error kinds.
//!
//! The kinds form a tree rooted at [`SzErrorKind::SzError`]:
//!
//! ```text
//! SzError
//! ├── BadInput
//! │   ├── NotFound
//! │   └── UnknownDataSource
//! ├── General
//! │   ├── Configuration
//! │   ├── ReplaceConflict
//! │   └── Sdk
//! ├── Retryable
//! │   ├── DatabaseConnectionLost
//! │   ├── DatabaseTransient
//! │   └── RetryTimeoutExceeded
//! └── Unrecoverable
//!     ├── Database
//!     ├── License
//!     ├── NotInitialized
//!     └── Unhandled
//! ```
//!
//! `Database` additionally names the cross-cutting group of database kinds
//! (`Database`, `DatabaseConnectionLost`, `DatabaseTransient`), whatever
//! their retryability.
use vstd::prelude::*;

verus! {

/// Identifies which Senzing SDK component produced an error.
#[derive(Debug, Clone, Copy, PartialEq, Eq, Structural)]
#[non_exhaustive]
pub enum SzComponent {
    /// The configuration component (`SzConfig`).
    Config,
    /// The configuration manager component (`SzConfigManager`).
    ConfigManager,
    /// The diagnostic component (`SzDiagnostic`).
    Diagnostic,
    /// The entity resolution engine component (`SzEngine`).
    Engine,
    /// The product information component (`SzProduct`).
    Product,
}

/// The name under which a component is reported.
pub open spec fn component_name(component: SzComponent) -> Seq<char> {
    match component {
        SzComponent::Config => "SzConfig"@,
        SzComponent::ConfigManager => "SzConfigManager"@,
        SzComponent::Diagnostic => "SzDiagnostic"@,
        SzComponent::Engine => "SzEngine"@,
        SzComponent::Product => "SzProduct"@,
    }
}

impl SzComponent {
    /// Returns the component name as a static string slice.
    pub fn as_str(self) -> (name: &'static str)
        ensures
            name@ == component_name(self),
    {
        match self {
            SzComponent::Config => "SzConfig",
            SzComponent::ConfigManager => "SzConfigManager",
            SzComponent::Diagnostic => "SzDiagnostic",
            SzComponent::Engine => "SzEngine",
            SzComponent::Product => "SzProduct",
        }
    }

    /// Returns the display text of the component: its name.
    pub fn to_string(&self) -> (text: String)
        ensures
            text@ == component_name(*self),
    {
        self.as_str().to_owned()
    }
}

/// Classification of an error into one of 17 error categories.
///
/// Mirrors the error-type taxonomy used across all Senzing SDK language
/// bindings.  The default kind is the root, [`SzErrorKind::SzError`].
#[derive(Debug, Clone, Copy, PartialEq, Eq, Structural)]
#[non_exhaustive]
pub enum SzErrorKind {
    /// The input provided to the API was invalid.
    BadInput,
    /// A configuration error occurred.
    Configuration,
    /// An unrecoverable database error occurred.
    Database,
    /// The database connection was lost (retryable).
    DatabaseConnectionLost,
    /// A transient database error occurred (retryable).
    DatabaseTransient,
    /// A general error that does not fit other categories.
    General,
    /// A license-related error occurred.
    License,
    /// The requested entity or record was not found.
    NotFound,
    /// The component has not been initialized.
    NotInitialized,
    /// A replace-default-config conflict was detected.
    ReplaceConflict,
    /// A transient error that may succeed on retry.
    Retryable,
    /// The retry timeout was exceeded.
    RetryTimeoutExceeded,
    /// An error originating from the SDK wrapper layer.
    Sdk,
    /// Root of the error hierarchy (default kind).
    SzError,
    /// An unhandled error occurred.
    Unhandled,
    /// The specified data source is not recognized.
    UnknownDataSource,
    /// An unrecoverable error occurred.
    Unrecoverable,
}

impl Default for SzErrorKind {
    /// The root of the hierarchy, `SzError`.
    fn default() -> (kind: Self)
        ensures
            kind == SzErrorKind::SzError,
    {
        SzErrorKind::SzError
    }
}

/// The family of a kind: the child of the root that it lies under in the
/// error tree (a family's head is its own family).  The root has none.
pub open spec fn family(kind: SzErrorKind) -> Option<SzErrorKind> {
    match kind {
        SzErrorKind::BadInput | SzErrorKind::NotFound | SzErrorKind::UnknownDataSource => Some(
            SzErrorKind::BadInput,
        ),
        SzErrorKind::General
        | SzErrorKind::Configuration
        | SzErrorKind::ReplaceConflict
        | SzErrorKind::Sdk => Some(SzErrorKind::General),
        SzErrorKind::Retryable
        | SzErrorKind::DatabaseConnectionLost
        | SzErrorKind::DatabaseTransient
        | SzErrorKind::RetryTimeoutExceeded => Some(SzErrorKind::Retryable),
        SzErrorKind::Unrecoverable
        | SzErrorKind::Database
        | SzErrorKind::License
        | SzErrorKind::NotInitialized
        | SzErrorKind::Unhandled => Some(SzErrorKind::Unrecoverable),
        SzErrorKind::SzError => None,
    }
}

/// `kind` lies in the family headed by `head`.
pub open spec fn in_family(kind: SzErrorKind, head: SzErrorKind) -> bool {
    family(kind) == Some(head)
}

/// `kind` is one of the database kinds, retryable or not.
pub open spec fn is_database_kind(kind: SzErrorKind) -> bool {
    kind == SzErrorKind::Database || kind == SzErrorKind::DatabaseConnectionLost || kind
        == SzErrorKind::DatabaseTransient
}

/// Hierarchy-aware match: `target` is the root, `kind` itself, the family
/// of `kind`, or the database group when `kind` is a database kind.
pub open spec fn kind_matches(kind: SzErrorKind, target: SzErrorKind) -> bool {
    ||| target == SzErrorKind::SzError
    ||| kind == target
    ||| family(kind) == Some(target)
    ||| target == SzErrorKind::Database && is_database_kind(kind)
}

/// The kind followed by its family head when the kind lies below it.
pub open spec fn kind_hierarchy(kind: SzErrorKind) -> Seq<SzErrorKind> {
    match family(kind) {
        Some(head) => if head == kind {
            seq![kind]
        } else {
            seq![kind, head]
        },
        None => seq![kind],
    }
}

/// Severity label of a kind.
pub open spec fn kind_severity(kind: SzErrorKind) -> Seq<char> {
    match kind {
        SzErrorKind::License | SzErrorKind::Unrecoverable | SzErrorKind::Unhandled => "critical"@,
        SzErrorKind::Database | SzErrorKind::NotInitialized => "high"@,
        SzErrorKind::Configuration
        | SzErrorKind::DatabaseConnectionLost
        | SzErrorKind::DatabaseTransient => "medium"@,
        _ => "low"@,
    }
}

/// Category slug of a kind, for structured logging.
pub open spec fn kind_category(kind: SzErrorKind) -> Seq<char> {
    match kind {
        SzErrorKind::BadInput => "bad_input"@,
        SzErrorKind::Configuration => "configuration"@,
        SzErrorKind::Database => "database"@,
        SzErrorKind::DatabaseConnectionLost => "database_connection_lost"@,
        SzErrorKind::DatabaseTransient => "database_transient"@,
        SzErrorKind::General => "general"@,
        SzErrorKind::License => "license"@,
        SzErrorKind::NotFound => "not_found"@,
        SzErrorKind::NotInitialized => "not_initialized"@,
        SzErrorKind::ReplaceConflict => "replace_conflict"@,
        SzErrorKind::Retryable => "retryable"@,
        SzErrorKind::RetryTimeoutExceeded => "retry_timeout_exceeded"@,
        SzErrorKind::Sdk => "sdk"@,
        SzErrorKind::SzError => "sz_error"@,
        SzErrorKind::Unhandled => "unhandled"@,
        SzErrorKind::UnknownDataSource => "unknown_data_source"@,
        SzErrorKind::Unrecoverable => "unrecoverable"@,
    }
}

/// Human-readable label of a kind (its display text).
pub open spec fn kind_label(kind: SzErrorKind) -> Seq<char> {
    match kind {
        SzErrorKind::BadInput => "bad input"@,
        SzErrorKind::Configuration => "configuration error"@,
        SzErrorKind::Database => "database error"@,
        SzErrorKind::DatabaseConnectionLost => "database connection lost"@,
        SzErrorKind::DatabaseTransient => "database transient error"@,
        SzErrorKind::General => "general error"@,
        SzErrorKind::License => "license error"@,
        SzErrorKind::NotFound => "not found"@,
        SzErrorKind::NotInitialized => "not initialized"@,
        SzErrorKind::ReplaceConflict => "replace conflict"@,
        SzErrorKind::Retryable => "retryable error"@,
        SzErrorKind::RetryTimeoutExceeded => "retry timeout exceeded"@,
        SzErrorKind::Sdk => "SDK error"@,
        SzErrorKind::SzError => "Senzing error"@,
        SzErrorKind::Unhandled => "unhandled error"@,
        SzErrorKind::UnknownDataSource => "unknown data source"@,
        SzErrorKind::Unrecoverable => "unrecoverable error"@,
    }
}


/// Every kind is a Senzing error: the root matches every kind.
pub proof fn law_every_kind_is_sz_error(kind: SzErrorKind)
    ensures
        kind_matches(kind, SzErrorKind::SzError),
{
}

/// Every kind matches itself.
pub proof fn law_kind_matches_itself(kind: SzErrorKind)
    ensures
        kind_matches(kind, kind),
{
}

/// The four families partition the kinds below the root: every kind but the
/// root lies in exactly one family, a family is headed by one of the four
/// children of the root, and the root lies in none.
pub proof fn law_families_partition(kind: SzErrorKind)
    ensures
        family(kind) is Some <==> kind != SzErrorKind::SzError,
        family(kind) matches Some(head) ==> {
            &&& head == SzErrorKind::BadInput || head == SzErrorKind::General || head
                == SzErrorKind::Retryable || head == SzErrorKind::Unrecoverable
            &&& family(head) == Some(head)
        },
{
}

/// The hierarchy of a kind starts with the kind itself; it has one element
/// for the root and the family heads, and two for the leaves, the second
/// being the family head.
pub proof fn law_hierarchy_shape(kind: SzErrorKind)
    ensures
        kind_hierarchy(kind)[0] == kind,
        kind_hierarchy(kind).len() == 1 <==> (kind == SzErrorKind::SzError || family(kind) == Some(
            kind,
        )),
        kind_hierarchy(kind).len() == 2 <==> (kind != SzErrorKind::SzError && family(kind) != Some(
            kind,
        )),
        kind_hierarchy(kind).len() == 2 ==> Some(kind_hierarchy(kind)[1]) == family(kind),
{
}

/// Every element of a kind's hierarchy is matched by the kind.
pub proof fn law_hierarchy_consistent_with_matching(kind: SzErrorKind, i: int)
    requires
        0 <= i < kind_hierarchy(kind).len(),
    ensures
        kind_matches(kind, kind_hierarchy(kind)[i]),
{
}

/// A leaf kind (one that is neither the root, a family head nor the database
/// group) is matched only by itself.
pub proof fn law_leaf_match_is_exact(kind: SzErrorKind, leaf: SzErrorKind)
    requires
        leaf != SzErrorKind::SzError,
        family(leaf) != Some(leaf),
        leaf != SzErrorKind::Database,
    ensures
        kind_matches(kind, leaf) <==> kind == leaf,
{
}

/// The database kinds are retryable or unrecoverable, never bad input or
/// general.
pub proof fn law_database_kinds_span_two_families(kind: SzErrorKind)
    requires
        is_database_kind(kind),
    ensures
        in_family(kind, SzErrorKind::Retryable) || in_family(kind, SzErrorKind::Unrecoverable),
        !in_family(kind, SzErrorKind::BadInput),
        !in_family(kind, SzErrorKind::General),
{
}

/// The families are those of the documented tree: each leaf lies under the
/// head named for it there, and no kind lies under the head of another
/// family.
pub proof fn law_tree_of_kinds(kind: SzErrorKind)
    ensures
        in_family(kind, SzErrorKind::BadInput) <==> (kind == SzErrorKind::BadInput || kind
            == SzErrorKind::NotFound || kind == SzErrorKind::UnknownDataSource),
        in_family(kind, SzErrorKind::General) <==> (kind == SzErrorKind::General || kind
            == SzErrorKind::Configuration || kind == SzErrorKind::ReplaceConflict || kind
            == SzErrorKind::Sdk),
        in_family(kind, SzErrorKind::Retryable) <==> (kind == SzErrorKind::Retryable || kind
            == SzErrorKind::DatabaseConnectionLost || kind == SzErrorKind::DatabaseTransient || kind
            == SzErrorKind::RetryTimeoutExceeded),
        in_family(kind, SzErrorKind::Unrecoverable) <==> (kind == SzErrorKind::Unrecoverable
            || kind == SzErrorKind::Database || kind == SzErrorKind::License || kind
            == SzErrorKind::NotInitialized || kind == SzErrorKind::Unhandled),
{
}

/// A family head matches exactly the kinds of its family: a kind never
/// matches the head of another family.
pub proof fn law_family_head_matches_its_family(kind: SzErrorKind, head: SzErrorKind)
    requires
        head == SzErrorKind::BadInput || head == SzErrorKind::General || head
            == SzErrorKind::Retryable || head == SzErrorKind::Unrecoverable,
    ensures
        kind_matches(kind, head) <==> in_family(kind, head),
{
}

/// Matching follows the hierarchy: a kind matches a target exactly when the
/// target is the root, lies in the kind's hierarchy (the kind itself or its
/// family head), or is the database group and the kind a database kind.
pub proof fn law_matching_is_the_hierarchy(kind: SzErrorKind, target: SzErrorKind)
    ensures
        kind_matches(kind, target) <==> (target == SzErrorKind::SzError || kind_hierarchy(
            kind,
        ).contains(target) || (target == SzErrorKind::Database && is_database_kind(kind))),
{
    if kind_hierarchy(kind).contains(target) {
        let i = choose|i: int| 0 <= i < kind_hierarchy(kind).len() && kind_hierarchy(kind)[i]
            == target;
        law_hierarchy_consistent_with_matching(kind, i);
    }
    if kind == target || family(kind) == Some(target) {
        assert(kind_hierarchy(kind)[0] == kind);
        if family(kind) == Some(target) && target != kind {
            assert(kind_hierarchy(kind)[1] == target);
        }
    }
}

/// The database group is exactly `Database`, `DatabaseConnectionLost` and
/// `DatabaseTransient`; the group matches them and nothing else but itself,
/// and every other kind (`RetryTimeoutExceeded` among them) is outside it.
pub proof fn law_database_group_is_exact(kind: SzErrorKind)
    ensures
        is_database_kind(kind) <==> (kind == SzErrorKind::Database || kind
            == SzErrorKind::DatabaseConnectionLost || kind == SzErrorKind::DatabaseTransient),
        kind_matches(kind, SzErrorKind::Database) <==> is_database_kind(kind),
        !is_database_kind(SzErrorKind::RetryTimeoutExceeded),
{
}

/// The text with each space written as an underscore.
pub open spec fn underscored(text: Seq<char>) -> Seq<char> {
    text.map_values(|c: char| if c == ' ' { '_' } else { c })
}

/// The label of a kind names that kind: written with underscores for
/// spaces, it begins with the kind's category slug (so `DatabaseTransient`
/// reads "database transient ..." and `DatabaseConnectionLost` "database
/// connection lost ..."); the two labels that are capitalised are "SDK
/// error" for `Sdk` and "Senzing error" for the root.
pub proof fn law_label_names_its_kind(kind: SzErrorKind)
    ensures
        kind != SzErrorKind::Sdk && kind != SzErrorKind::SzError ==> kind_category(
            kind,
        ).is_prefix_of(underscored(kind_label(kind))),
        kind == SzErrorKind::Sdk ==> kind_label(kind) == "SDK error"@,
        kind == SzErrorKind::SzError ==> kind_label(kind) == "Senzing error"@,
{
    match kind {
        SzErrorKind::BadInput => {
            reveal_strlit("bad_input");
            reveal_strlit("bad input");
            assert(kind_category(kind) =~= underscored(kind_label(kind)).subrange(0, kind_category(kind).len() as int));
        },
        SzErrorKind::Configuration => {
            reveal_strlit("configuration");
            reveal_strlit("configuration error");
            assert(kind_category(kind) =~= underscored(kind_label(kind)).subrange(0, kind_category(kind).len() as int));
        },
        SzErrorKind::Database => {
            reveal_strlit("database");
            reveal_strlit("database error");
            assert(kind_category(kind) =~= underscored(kind_label(kind)).subrange(0, kind_category(kind).len() as int));
        },
        SzErrorKind::DatabaseConnectionLost => {
            reveal_strlit("database_connection_lost");
            reveal_strlit("database connection lost");
            assert(kind_category(kind) =~= underscored(kind_label(kind)).subrange(0, kind_category(kind).len() as int));
        },
        SzErrorKind::DatabaseTransient => {
            reveal_strlit("database_transient");
            reveal_strlit("database transient error");
            assert(kind_category(kind) =~= underscored(kind_label(kind)).subrange(0, kind_category(kind).len() as int));
        },
        SzErrorKind::General => {
            reveal_strlit("general");
            reveal_strlit("general error");
            assert(kind_category(kind) =~= underscored(kind_label(kind)).subrange(0, kind_category(kind).len() as int));
        },
        SzErrorKind::License => {
            reveal_strlit("license");
            reveal_strlit("license error");
            assert(kind_category(kind) =~= underscored(kind_label(kind)).subrange(0, kind_category(kind).len() as int));
        },
        SzErrorKind::NotFound => {
            reveal_strlit("not_found");
            reveal_strlit("not found");
            assert(kind_category(kind) =~= underscored(kind_label(kind)).subrange(0, kind_category(kind).len() as int));
        },
        SzErrorKind::NotInitialized => {
            reveal_strlit("not_initialized");
            reveal_strlit("not initialized");
            assert(kind_category(kind) =~= underscored(kind_label(kind)).subrange(0, kind_category(kind).len() as int));
        },
        SzErrorKind::ReplaceConflict => {
            reveal_strlit("replace_conflict");
            reveal_strlit("replace conflict");
            assert(kind_category(kind) =~= underscored(kind_label(kind)).subrange(0, kind_category(kind).len() as int));
        },
        SzErrorKind::Retryable => {
            reveal_strlit("retryable");
            reveal_strlit("retryable error");
            assert(kind_category(kind) =~= underscored(kind_label(kind)).subrange(0, kind_category(kind).len() as int));
        },
        SzErrorKind::RetryTimeoutExceeded => {
            reveal_strlit("retry_timeout_exceeded");
            reveal_strlit("retry timeout exceeded");
            assert(kind_category(kind) =~= underscored(kind_label(kind)).subrange(0, kind_category(kind).len() as int));
        },
        SzErrorKind::Sdk => {
            reveal_strlit("sdk");
            reveal_strlit("SDK error");
        },
        SzErrorKind::SzError => {
            reveal_strlit("sz_error");
            reveal_strlit("Senzing error");
        },
        SzErrorKind::Unhandled => {
            reveal_strlit("unhandled");
            reveal_strlit("unhandled error");
            assert(kind_category(kind) =~= underscored(kind_label(kind)).subrange(0, kind_category(kind).len() as int));
        },
        SzErrorKind::UnknownDataSource => {
            reveal_strlit("unknown_data_source");
            reveal_strlit("unknown data source");
            assert(kind_category(kind) =~= underscored(kind_label(kind)).subrange(0, kind_category(kind).len() as int));
        },
        SzErrorKind::Unrecoverable => {
            reveal_strlit("unrecoverable");
            reveal_strlit("unrecoverable error");
            assert(kind_category(kind) =~= underscored(kind_label(kind)).subrange(0, kind_category(kind).len() as int));
        },
    }
}

/// A kind's category slug begins with "database" exactly when the kind is
/// in the database group.
pub proof fn law_database_group_by_category(kind: SzErrorKind)
    ensures
        is_database_kind(kind) <==> "database"@.is_prefix_of(kind_category(kind)),
{
    reveal_strlit("database");
    match kind {
        SzErrorKind::BadInput => {
            reveal_strlit("bad_input");
            assert(kind_category(kind).len() < 8 || kind_category(kind)[0] != "database"@[0]);
        },
        SzErrorKind::Configuration => {
            reveal_strlit("configuration");
            assert(kind_category(kind).len() < 8 || kind_category(kind)[0] != "database"@[0]);
        },
        SzErrorKind::Database => {
            reveal_strlit("database");
            assert("database"@ =~= kind_category(kind).subrange(0, 8));
        },
        SzErrorKind::DatabaseConnectionLost => {
            reveal_strlit("database_connection_lost");
            assert("database"@ =~= kind_category(kind).subrange(0, 8));
        },
        SzErrorKind::DatabaseTransient => {
            reveal_strlit("database_transient");
            assert("database"@ =~= kind_category(kind).subrange(0, 8));
        },
        SzErrorKind::General => {
            reveal_strlit("general");
        },
        SzErrorKind::License => {
            reveal_strlit("license");
        },
        SzErrorKind::NotFound => {
            reveal_strlit("not_found");
            assert(kind_category(kind).len() < 8 || kind_category(kind)[0] != "database"@[0]);
        },
        SzErrorKind::NotInitialized => {
            reveal_strlit("not_initialized");
            assert(kind_category(kind).len() < 8 || kind_category(kind)[0] != "database"@[0]);
        },
        SzErrorKind::ReplaceConflict => {
            reveal_strlit("replace_conflict");
            assert(kind_category(kind).len() < 8 || kind_category(kind)[0] != "database"@[0]);
        },
        SzErrorKind::Retryable => {
            reveal_strlit("retryable");
            assert(kind_category(kind).len() < 8 || kind_category(kind)[0] != "database"@[0]);
        },
        SzErrorKind::RetryTimeoutExceeded => {
            reveal_strlit("retry_timeout_exceeded");
            assert(kind_category(kind).len() < 8 || kind_category(kind)[0] != "database"@[0]);
        },
        SzErrorKind::Sdk => {
            reveal_strlit("sdk");
        },
        SzErrorKind::SzError => {
            reveal_strlit("sz_error");
            assert(kind_category(kind).len() < 8 || kind_category(kind)[0] != "database"@[0]);
        },
        SzErrorKind::Unhandled => {
            reveal_strlit("unhandled");
            assert(kind_category(kind).len() < 8 || kind_category(kind)[0] != "database"@[0]);
        },
        SzErrorKind::UnknownDataSource => {
            reveal_strlit("unknown_data_source");
            assert(kind_category(kind).len() < 8 || kind_category(kind)[0] != "database"@[0]);
        },
        SzErrorKind::Unrecoverable => {
            reveal_strlit("unrecoverable");
            assert(kind_category(kind).len() < 8 || kind_category(kind)[0] != "database"@[0]);
        },
    }
}

/// Different kinds have different labels.
pub proof fn law_labels_are_distinct(a: SzErrorKind, b: SzErrorKind)
    requires
        a != b,
    ensures
        kind_label(a) != kind_label(b),
{
    reveal_strlit("bad input");
    reveal_strlit("configuration error");
    reveal_strlit("database error");
    reveal_strlit("database connection lost");
    reveal_strlit("database transient error");
    reveal_strlit("general error");
    reveal_strlit("license error");
    reveal_strlit("not found");
    reveal_strlit("not initialized");
    reveal_strlit("replace conflict");
    reveal_strlit("retryable error");
    reveal_strlit("retry timeout exceeded");
    reveal_strlit("SDK error");
    reveal_strlit("Senzing error");
    reveal_strlit("unhandled error");
    reveal_strlit("unknown data source");
    reveal_strlit("unrecoverable error");
    match a {
        SzErrorKind::BadInput => match b {
            SzErrorKind::Configuration => assert(kind_label(a).len() != kind_label(b).len()),
            SzErrorKind::Database => assert(kind_label(a).len() != kind_label(b).len()),
            SzErrorKind::DatabaseConnectionLost => assert(kind_label(a).len() != kind_label(b).len()),
            SzErrorKind::DatabaseTransient => assert(kind_label(a).len() != kind_label(b).len()),
            SzErrorKind::General => assert(kind_label(a).len() != kind_label(b).len()),
            SzErrorKind::License => assert(kind_label(a).len() != kind_label(b).len()),
            SzErrorKind::NotFound => assert(kind_label(a)[0] != kind_label(b)[0]),
            SzErrorKind::NotInitialized => assert(kind_label(a).len() != kind_label(b).len()),
            SzErrorKind::ReplaceConflict => assert(kind_label(a).len() != kind_label(b).len()),
            SzErrorKind::Retryable => assert(kind_label(a).len() != kind_label(b).len()),
            SzErrorKind::RetryTimeoutExceeded => assert(kind_label(a).len() != kind_label(b).len()),
            SzErrorKind::Sdk => assert(kind_label(a)[0] != kind_label(b)[0]),
            SzErrorKind::SzError => assert(kind_label(a).len() != kind_label(b).len()),
            SzErrorKind::Unhandled => assert(kind_label(a).len() != kind_label(b).len()),
            SzErrorKind::UnknownDataSource => assert(kind_label(a).len() != kind_label(b).len()),
            SzErrorKind::Unrecoverable => assert(kind_label(a).len() != kind_label(b).len()),
            _ => {},
        },
        SzErrorKind::Configuration => match b {
            SzErrorKind::BadInput => assert(kind_label(a).len() != kind_label(b).len()),
            SzErrorKind::Database => assert(kind_label(a).len() != kind_label(b).len()),
            SzErrorKind::DatabaseConnectionLost => assert(kind_label(a).len() != kind_label(b).len()),
            SzErrorKind::DatabaseTransient => assert(kind_label(a).len() != kind_label(b).len()),
            SzErrorKind::General => assert(kind_label(a).len() != kind_label(b).len()),
            SzErrorKind::License => assert(kind_label(a).len() != kind_label(b).len()),
            SzErrorKind::NotFound => assert(kind_label(a).len() != kind_label(b).len()),
            SzErrorKind::NotInitialized => assert(kind_label(a).len() != kind_label(b).len()),
            SzErrorKind::ReplaceConflict => assert(kind_label(a).len() != kind_label(b).len()),
            SzErrorKind::Retryable => assert(kind_label(a).len() != kind_label(b).len()),
            SzErrorKind::RetryTimeoutExceeded => assert(kind_label(a).len() != kind_label(b).len()),
            SzErrorKind::Sdk => assert(kind_label(a).len() != kind_label(b).len()),
            SzErrorKind::SzError => assert(kind_label(a).len() != kind_label(b).len()),
            SzErrorKind::Unhandled => assert(kind_label(a).len() != kind_label(b).len()),
            SzErrorKind::UnknownDataSource => assert(kind_label(a)[0] != kind_label(b)[0]),
            SzErrorKind::Unrecoverable => assert(kind_label(a)[0] != kind_label(b)[0]),
            _ => {},
        },
        SzErrorKind::Database => match b {
            SzErrorKind::BadInput => assert(kind_label(a).len() != kind_label(b).len()),
            SzErrorKind::Configuration => assert(kind_label(a).len() != kind_label(b).len()),
            SzErrorKind::DatabaseConnectionLost => assert(kind_label(a).len() != kind_label(b).len()),
            SzErrorKind::DatabaseTransient => assert(kind_label(a).len() != kind_label(b).len()),
            SzErrorKind::General => assert(kind_label(a).len() != kind_label(b).len()),
            SzErrorKind::License => assert(kind_label(a).len() != kind_label(b).len()),
            SzErrorKind::NotFound => assert(kind_label(a).len() != kind_label(b).len()),
            SzErrorKind::NotInitialized => assert(kind_label(a).len() != kind_label(b).len()),
            SzErrorKind::ReplaceConflict => assert(kind_label(a).len() != kind_label(b).len()),
            SzErrorKind::Retryable => assert(kind_label(a).len() != kind_label(b).len()),
            SzErrorKind::RetryTimeoutExceeded => assert(kind_label(a).len() != kind_label(b).len()),
            SzErrorKind::Sdk => assert(kind_label(a).len() != kind_label(b).len()),
            SzErrorKind::SzError => assert(kind_label(a).len() != kind_label(b).len()),
            SzErrorKind::Unhandled => assert(kind_label(a).len() != kind_label(b).len()),
            SzErrorKind::UnknownDataSource => assert(kind_label(a).len() != kind_label(b).len()),
            SzErrorKind::Unrecoverable => assert(kind_label(a).len() != kind_label(b).len()),
            _ => {},
        },
        SzErrorKind::DatabaseConnectionLost => match b {
            SzErrorKind::BadInput => assert(kind_label(a).len() != kind_label(b).len()),
            SzErrorKind::Configuration => assert(kind_label(a).len() != kind_label(b).len()),
            SzErrorKind::Database => assert(kind_label(a).len() != kind_label(b).len()),
            SzErrorKind::DatabaseTransient => assert(kind_label(a)[9] != kind_label(b)[9]),
            SzErrorKind::General => assert(kind_label(a).len() != kind_label(b).len()),
            SzErrorKind::License => assert(kind_label(a).len() != kind_label(b).len()),
            SzErrorKind::NotFound => assert(kind_label(a).len() != kind_label(b).len()),
            SzErrorKind::NotInitialized => assert(kind_label(a).len() != kind_label(b).len()),
            SzErrorKind::ReplaceConflict => assert(kind_label(a).len() != kind_label(b).len()),
            SzErrorKind::Retryable => assert(kind_label(a).len() != kind_label(b).len()),
            SzErrorKind::RetryTimeoutExceeded => assert(kind_label(a).len() != kind_label(b).len()),
            SzErrorKind::Sdk => assert(kind_label(a).len() != kind_label(b).len()),
            SzErrorKind::SzError => assert(kind_label(a).len() != kind_label(b).len()),
            SzErrorKind::Unhandled => assert(kind_label(a).len() != kind_label(b).len()),
            SzErrorKind::UnknownDataSource => assert(kind_label(a).len() != kind_label(b).len()),
            SzErrorKind::Unrecoverable => assert(kind_label(a).len() != kind_label(b).len()),
            _ => {},
        },
        SzErrorKind::DatabaseTransient => match b {
            SzErrorKind::BadInput => assert(kind_label(a).len() != kind_label(b).len()),
            SzErrorKind::Configuration => assert(kind_label(a).len() != kind_label(b).len()),
            SzErrorKind::Database => assert(kind_label(a).len() != kind_label(b).len()),
            SzErrorKind::DatabaseConnectionLost => assert(kind_label(a)[9] != kind_label(b)[9]),
            SzErrorKind::General => assert(kind_label(a).len() != kind_label(b).len()),
            SzErrorKind::License => assert(kind_label(a).len() != kind_label(b).len()),
            SzErrorKind::NotFound => assert(kind_label(a).len() != kind_label(b).len()),
            SzErrorKind::NotInitialized => assert(kind_label(a).len() != kind_label(b).len()),
            SzErrorKind::ReplaceConflict => assert(kind_label(a).len() != kind_label(b).len()),
            SzErrorKind::Retryable => assert(kind_label(a).len() != kind_label(b).len()),
            SzErrorKind::RetryTimeoutExceeded => assert(kind_label(a).len() != kind_label(b).len()),
            SzErrorKind::Sdk => assert(kind_label(a).len() != kind_label(b).len()),
            SzErrorKind::SzError => assert(kind_label(a).len() != kind_label(b).len()),
            SzErrorKind::Unhandled => assert(kind_label(a).len() != kind_label(b).len()),
            SzErrorKind::UnknownDataSource => assert(kind_label(a).len() != kind_label(b).len()),
            SzErrorKind::Unrecoverable => assert(kind_label(a).len() != kind_label(b).len()),
            _ => {},
        },
        SzErrorKind::General => match b {
            SzErrorKind::BadInput => assert(kind_label(a).len() != kind_label(b).len()),
            SzErrorKind::Configuration => assert(kind_label(a).len() != kind_label(b).len()),
            SzErrorKind::Database => assert(kind_label(a).len() != kind_label(b).len()),
            SzErrorKind::DatabaseConnectionLost => assert(kind_label(a).len() != kind_label(b).len()),
            SzErrorKind::DatabaseTransient => assert(kind_label(a).len() != kind_label(b).len()),
            SzErrorKind::License => assert(kind_label(a)[0] != kind_label(b)[0]),
            SzErrorKind::NotFound => assert(kind_label(a).len() != kind_label(b).len()),
            SzErrorKind::NotInitialized => assert(kind_label(a).len() != kind_label(b).len()),
            SzErrorKind::ReplaceConflict => assert(kind_label(a).len() != kind_label(b).len()),
            SzErrorKind::Retryable => assert(kind_label(a).len() != kind_label(b).len()),
            SzErrorKind::RetryTimeoutExceeded => assert(kind_label(a).len() != kind_label(b).len()),
            SzErrorKind::Sdk => assert(kind_label(a).len() != kind_label(b).len()),
            SzErrorKind::SzError => assert(kind_label(a)[0] != kind_label(b)[0]),
            SzErrorKind::Unhandled => assert(kind_label(a).len() != kind_label(b).len()),
            SzErrorKind::UnknownDataSource => assert(kind_label(a).len() != kind_label(b).len()),
            SzErrorKind::Unrecoverable => assert(kind_label(a).len() != kind_label(b).len()),
            _ => {},
        },
        SzErrorKind::License => match b {
            SzErrorKind::BadInput => assert(kind_label(a).len() != kind_label(b).len()),
            SzErrorKind::Configuration => assert(kind_label(a).len() != kind_label(b).len()),
            SzErrorKind::Database => assert(kind_label(a).len() != kind_label(b).len()),
            SzErrorKind::DatabaseConnectionLost => assert(kind_label(a).len() != kind_label(b).len()),
            SzErrorKind::DatabaseTransient => assert(kind_label(a).len() != kind_label(b).len()),
            SzErrorKind::General => assert(kind_label(a)[0] != kind_label(b)[0]),
            SzErrorKind::NotFound => assert(kind_label(a).len() != kind_label(b).len()),
            SzErrorKind::NotInitialized => assert(kind_label(a).len() != kind_label(b).len()),
            SzErrorKind::ReplaceConflict => assert(kind_label(a).len() != kind_label(b).len()),
            SzErrorKind::Retryable => assert(kind_label(a).len() != kind_label(b).len()),
            SzErrorKind::RetryTimeoutExceeded => assert(kind_label(a).len() != kind_label(b).len()),
            SzErrorKind::Sdk => assert(kind_label(a).len() != kind_label(b).len()),
            SzErrorKind::SzError => assert(kind_label(a)[0] != kind_label(b)[0]),
            SzErrorKind::Unhandled => assert(kind_label(a).len() != kind_label(b).len()),
            SzErrorKind::UnknownDataSource => assert(kind_label(a).len() != kind_label(b).len()),
            SzErrorKind::Unrecoverable => assert(kind_label(a).len() != kind_label(b).len()),
            _ => {},
        },
        SzErrorKind::NotFound => match b {
            SzErrorKind::BadInput => assert(kind_label(a)[0] != kind_label(b)[0]),
            SzErrorKind::Configuration => assert(kind_label(a).len() != kind_label(b).len()),
            SzErrorKind::Database => assert(kind_label(a).len() != kind_label(b).len()),
            SzErrorKind::DatabaseConnectionLost => assert(kind_label(a).len() != kind_label(b).len()),
            SzErrorKind::DatabaseTransient => assert(kind_label(a).len() != kind_label(b).len()),
            SzErrorKind::General => assert(kind_label(a).len() != kind_label(b).len()),
            SzErrorKind::License => assert(kind_label(a).len() != kind_label(b).len()),
            SzErrorKind::NotInitialized => assert(kind_label(a).len() != kind_label(b).len()),
            SzErrorKind::ReplaceConflict => assert(kind_label(a).len() != kind_label(b).len()),
            SzErrorKind::Retryable => assert(kind_label(a).len() != kind_label(b).len()),
            SzErrorKind::RetryTimeoutExceeded => assert(kind_label(a).len() != kind_label(b).len()),
            SzErrorKind::Sdk => assert(kind_label(a)[0] != kind_label(b)[0]),
            SzErrorKind::SzError => assert(kind_label(a).len() != kind_label(b).len()),
            SzErrorKind::Unhandled => assert(kind_label(a).len() != kind_label(b).len()),
            SzErrorKind::UnknownDataSource => assert(kind_label(a).len() != kind_label(b).len()),
            SzErrorKind::Unrecoverable => assert(kind_label(a).len() != kind_label(b).len()),
            _ => {},
        },
        SzErrorKind::NotInitialized => match b {
            SzErrorKind::BadInput => assert(kind_label(a).len() != kind_label(b).len()),
            SzErrorKind::Configuration => assert(kind_label(a).len() != kind_label(b).len()),
            SzErrorKind::Database => assert(kind_label(a).len() != kind_label(b).len()),
            SzErrorKind::DatabaseConnectionLost => assert(kind_label(a).len() != kind_label(b).len()),
            SzErrorKind::DatabaseTransient => assert(kind_label(a).len() != kind_label(b).len()),
            SzErrorKind::General => assert(kind_label(a).len() != kind_label(b).len()),
            SzErrorKind::License => assert(kind_label(a).len() != kind_label(b).len()),
            SzErrorKind::NotFound => assert(kind_label(a).len() != kind_label(b).len()),
            SzErrorKind::ReplaceConflict => assert(kind_label(a).len() != kind_label(b).len()),
            SzErrorKind::Retryable => assert(kind_label(a)[0] != kind_label(b)[0]),
            SzErrorKind::RetryTimeoutExceeded => assert(kind_label(a).len() != kind_label(b).len()),
            SzErrorKind::Sdk => assert(kind_label(a).len() != kind_label(b).len()),
            SzErrorKind::SzError => assert(kind_label(a).len() != kind_label(b).len()),
            SzErrorKind::Unhandled => assert(kind_label(a)[0] != kind_label(b)[0]),
            SzErrorKind::UnknownDataSource => assert(kind_label(a).len() != kind_label(b).len()),
            SzErrorKind::Unrecoverable => assert(kind_label(a).len() != kind_label(b).len()),
            _ => {},
        },
        SzErrorKind::ReplaceConflict => match b {
            SzErrorKind::BadInput => assert(kind_label(a).len() != kind_label(b).len()),
            SzErrorKind::Configuration => assert(kind_label(a).len() != kind_label(b).len()),
            SzErrorKind::Database => assert(kind_label(a).len() != kind_label(b).len()),
            SzErrorKind::DatabaseConnectionLost => assert(kind_label(a).len() != kind_label(b).len()),
            SzErrorKind::DatabaseTransient => assert(kind_label(a).len() != kind_label(b).len()),
            SzErrorKind::General => assert(kind_label(a).len() != kind_label(b).len()),
            SzErrorKind::License => assert(kind_label(a).len() != kind_label(b).len()),
            SzErrorKind::NotFound => assert(kind_label(a).len() != kind_label(b).len()),
            SzErrorKind::NotInitialized => assert(kind_label(a).len() != kind_label(b).len()),
            SzErrorKind::Retryable => assert(kind_label(a).len() != kind_label(b).len()),
            SzErrorKind::RetryTimeoutExceeded => assert(kind_label(a).len() != kind_label(b).len()),
            SzErrorKind::Sdk => assert(kind_label(a).len() != kind_label(b).len()),
            SzErrorKind::SzError => assert(kind_label(a).len() != kind_label(b).len()),
            SzErrorKind::Unhandled => assert(kind_label(a).len() != kind_label(b).len()),
            SzErrorKind::UnknownDataSource => assert(kind_label(a).len() != kind_label(b).len()),
            SzErrorKind::Unrecoverable => assert(kind_label(a).len() != kind_label(b).len()),
            _ => {},
        },
        SzErrorKind::Retryable => match b {
            SzErrorKind::BadInput => assert(kind_label(a).len() != kind_label(b).len()),
            SzErrorKind::Configuration => assert(kind_label(a).len() != kind_label(b).len()),
            SzErrorKind::Database => assert(kind_label(a).len() != kind_label(b).len()),
            SzErrorKind::DatabaseConnectionLost => assert(kind_label(a).len() != kind_label(b).len()),
            SzErrorKind::DatabaseTransient => assert(kind_label(a).len() != kind_label(b).len()),
            SzErrorKind::General => assert(kind_label(a).len() != kind_label(b).len()),
            SzErrorKind::License => assert(kind_label(a).len() != kind_label(b).len()),
            SzErrorKind::NotFound => assert(kind_label(a).len() != kind_label(b).len()),
            SzErrorKind::NotInitialized => assert(kind_label(a)[0] != kind_label(b)[0]),
            SzErrorKind::ReplaceConflict => assert(kind_label(a).len() != kind_label(b).len()),
            SzErrorKind::RetryTimeoutExceeded => assert(kind_label(a).len() != kind_label(b).len()),
            SzErrorKind::Sdk => assert(kind_label(a).len() != kind_label(b).len()),
            SzErrorKind::SzError => assert(kind_label(a).len() != kind_label(b).len()),
            SzErrorKind::Unhandled => assert(kind_label(a)[0] != kind_label(b)[0]),
            SzErrorKind::UnknownDataSource => assert(kind_label(a).len() != kind_label(b).len()),
            SzErrorKind::Unrecoverable => assert(kind_label(a).len() != kind_label(b).len()),
            _ => {},
        },
        SzErrorKind::RetryTimeoutExceeded => match b {
            SzErrorKind::BadInput => assert(kind_label(a).len() != kind_label(b).len()),
            SzErrorKind::Configuration => assert(kind_label(a).len() != kind_label(b).len()),
            SzErrorKind::Database => assert(kind_label(a).len() != kind_label(b).len()),
            SzErrorKind::DatabaseConnectionLost => assert(kind_label(a).len() != kind_label(b).len()),
            SzErrorKind::DatabaseTransient => assert(kind_label(a).len() != kind_label(b).len()),
            SzErrorKind::General => assert(kind_label(a).len() != kind_label(b).len()),
            SzErrorKind::License => assert(kind_label(a).len() != kind_label(b).len()),
            SzErrorKind::NotFound => assert(kind_label(a).len() != kind_label(b).len()),
            SzErrorKind::NotInitialized => assert(kind_label(a).len() != kind_label(b).len()),
            SzErrorKind::ReplaceConflict => assert(kind_label(a).len() != kind_label(b).len()),
            SzErrorKind::Retryable => assert(kind_label(a).len() != kind_label(b).len()),
            SzErrorKind::Sdk => assert(kind_label(a).len() != kind_label(b).len()),
            SzErrorKind::SzError => assert(kind_label(a).len() != kind_label(b).len()),
            SzErrorKind::Unhandled => assert(kind_label(a).len() != kind_label(b).len()),
            SzErrorKind::UnknownDataSource => assert(kind_label(a).len() != kind_label(b).len()),
            SzErrorKind::Unrecoverable => assert(kind_label(a).len() != kind_label(b).len()),
            _ => {},
        },
        SzErrorKind::Sdk => match b {
            SzErrorKind::BadInput => assert(kind_label(a)[0] != kind_label(b)[0]),
            SzErrorKind::Configuration => assert(kind_label(a).len() != kind_label(b).len()),
            SzErrorKind::Database => assert(kind_label(a).len() != kind_label(b).len()),
            SzErrorKind::DatabaseConnectionLost => assert(kind_label(a).len() != kind_label(b).len()),
            SzErrorKind::DatabaseTransient => assert(kind_label(a).len() != kind_label(b).len()),
            SzErrorKind::General => assert(kind_label(a).len() != kind_label(b).len()),
            SzErrorKind::License => assert(kind_label(a).len() != kind_label(b).len()),
            SzErrorKind::NotFound => assert(kind_label(a)[0] != kind_label(b)[0]),
            SzErrorKind::NotInitialized => assert(kind_label(a).len() != kind_label(b).len()),
            SzErrorKind::ReplaceConflict => assert(kind_label(a).len() != kind_label(b).len()),
            SzErrorKind::Retryable => assert(kind_label(a).len() != kind_label(b).len()),
            SzErrorKind::RetryTimeoutExceeded => assert(kind_label(a).len() != kind_label(b).len()),
            SzErrorKind::SzError => assert(kind_label(a).len() != kind_label(b).len()),
            SzErrorKind::Unhandled => assert(kind_label(a).len() != kind_label(b).len()),
            SzErrorKind::UnknownDataSource => assert(kind_label(a).len() != kind_label(b).len()),
            SzErrorKind::Unrecoverable => assert(kind_label(a).len() != kind_label(b).len()),
            _ => {},
        },
        SzErrorKind::SzError => match b {
            SzErrorKind::BadInput => assert(kind_label(a).len() != kind_label(b).len()),
            SzErrorKind::Configuration => assert(kind_label(a).len() != kind_label(b).len()),
            SzErrorKind::Database => assert(kind_label(a).len() != kind_label(b).len()),
            SzErrorKind::DatabaseConnectionLost => assert(kind_label(a).len() != kind_label(b).len()),
            SzErrorKind::DatabaseTransient => assert(kind_label(a).len() != kind_label(b).len()),
            SzErrorKind::General => assert(kind_label(a)[0] != kind_label(b)[0]),
            SzErrorKind::License => assert(kind_label(a)[0] != kind_label(b)[0]),
            SzErrorKind::NotFound => assert(kind_label(a).len() != kind_label(b).len()),
            SzErrorKind::NotInitialized => assert(kind_label(a).len() != kind_label(b).len()),
            SzErrorKind::ReplaceConflict => assert(kind_label(a).len() != kind_label(b).len()),
            SzErrorKind::Retryable => assert(kind_label(a).len() != kind_label(b).len()),
            SzErrorKind::RetryTimeoutExceeded => assert(kind_label(a).len() != kind_label(b).len()),
            SzErrorKind::Sdk => assert(kind_label(a).len() != kind_label(b).len()),
            SzErrorKind::Unhandled => assert(kind_label(a).len() != kind_label(b).len()),
            SzErrorKind::UnknownDataSource => assert(kind_label(a).len() != kind_label(b).len()),
            SzErrorKind::Unrecoverable => assert(kind_label(a).len() != kind_label(b).len()),
            _ => {},
        },
        SzErrorKind::Unhandled => match b {
            SzErrorKind::BadInput => assert(kind_label(a).len() != kind_label(b).len()),
            SzErrorKind::Configuration => assert(kind_label(a).len() != kind_label(b).len()),
            SzErrorKind::Database => assert(kind_label(a).len() != kind_label(b).len()),
            SzErrorKind::DatabaseConnectionLost => assert(kind_label(a).len() != kind_label(b).len()),
            SzErrorKind::DatabaseTransient => assert(kind_label(a).len() != kind_label(b).len()),
            SzErrorKind::General => assert(kind_label(a).len() != kind_label(b).len()),
            SzErrorKind::License => assert(kind_label(a).len() != kind_label(b).len()),
            SzErrorKind::NotFound => assert(kind_label(a).len() != kind_label(b).len()),
            SzErrorKind::NotInitialized => assert(kind_label(a)[0] != kind_label(b)[0]),
            SzErrorKind::ReplaceConflict => assert(kind_label(a).len() != kind_label(b).len()),
            SzErrorKind::Retryable => assert(kind_label(a)[0] != kind_label(b)[0]),
            SzErrorKind::RetryTimeoutExceeded => assert(kind_label(a).len() != kind_label(b).len()),
            SzErrorKind::Sdk => assert(kind_label(a).len() != kind_label(b).len()),
            SzErrorKind::SzError => assert(kind_label(a).len() != kind_label(b).len()),
            SzErrorKind::UnknownDataSource => assert(kind_label(a).len() != kind_label(b).len()),
            SzErrorKind::Unrecoverable => assert(kind_label(a).len() != kind_label(b).len()),
            _ => {},
        },
        SzErrorKind::UnknownDataSource => match b {
            SzErrorKind::BadInput => assert(kind_label(a).len() != kind_label(b).len()),
            SzErrorKind::Configuration => assert(kind_label(a)[0] != kind_label(b)[0]),
            SzErrorKind::Database => assert(kind_label(a).len() != kind_label(b).len()),
            SzErrorKind::DatabaseConnectionLost => assert(kind_label(a).len() != kind_label(b).len()),
            SzErrorKind::DatabaseTransient => assert(kind_label(a).len() != kind_label(b).len()),
            SzErrorKind::General => assert(kind_label(a).len() != kind_label(b).len()),
            SzErrorKind::License => assert(kind_label(a).len() != kind_label(b).len()),
            SzErrorKind::NotFound => assert(kind_label(a).len() != kind_label(b).len()),
            SzErrorKind::NotInitialized => assert(kind_label(a).len() != kind_label(b).len()),
            SzErrorKind::ReplaceConflict => assert(kind_label(a).len() != kind_label(b).len()),
            SzErrorKind::Retryable => assert(kind_label(a).len() != kind_label(b).len()),
            SzErrorKind::RetryTimeoutExceeded => assert(kind_label(a).len() != kind_label(b).len()),
            SzErrorKind::Sdk => assert(kind_label(a).len() != kind_label(b).len()),
            SzErrorKind::SzError => assert(kind_label(a).len() != kind_label(b).len()),
            SzErrorKind::Unhandled => assert(kind_label(a).len() != kind_label(b).len()),
            SzErrorKind::Unrecoverable => assert(kind_label(a)[2] != kind_label(b)[2]),
            _ => {},
        },
        SzErrorKind::Unrecoverable => match b {
            SzErrorKind::BadInput => assert(kind_label(a).len() != kind_label(b).len()),
            SzErrorKind::Configuration => assert(kind_label(a)[0] != kind_label(b)[0]),
            SzErrorKind::Database => assert(kind_label(a).len() != kind_label(b).len()),
            SzErrorKind::DatabaseConnectionLost => assert(kind_label(a).len() != kind_label(b).len()),
            SzErrorKind::DatabaseTransient => assert(kind_label(a).len() != kind_label(b).len()),
            SzErrorKind::General => assert(kind_label(a).len() != kind_label(b).len()),
            SzErrorKind::License => assert(kind_label(a).len() != kind_label(b).len()),
            SzErrorKind::NotFound => assert(kind_label(a).len() != kind_label(b).len()),
            SzErrorKind::NotInitialized => assert(kind_label(a).len() != kind_label(b).len()),
            SzErrorKind::ReplaceConflict => assert(kind_label(a).len() != kind_label(b).len()),
            SzErrorKind::Retryable => assert(kind_label(a).len() != kind_label(b).len()),
            SzErrorKind::RetryTimeoutExceeded => assert(kind_label(a).len() != kind_label(b).len()),
            SzErrorKind::Sdk => assert(kind_label(a).len() != kind_label(b).len()),
            SzErrorKind::SzError => assert(kind_label(a).len() != kind_label(b).len()),
            SzErrorKind::Unhandled => assert(kind_label(a).len() != kind_label(b).len()),
            SzErrorKind::UnknownDataSource => assert(kind_label(a)[2] != kind_label(b)[2]),
            _ => {},
        },
    }
}

/// The severity follows the families: "critical" or "high" exactly for
/// the unrecoverable kinds ("high" for `Database` and `NotInitialized`),
/// "medium" exactly for `Configuration` and the retryable database kinds,
/// and "low" for every other kind.
pub proof fn law_severity_follows_families(kind: SzErrorKind)
    ensures
        (kind_severity(kind) == "critical"@ || kind_severity(kind) == "high"@) <==> in_family(
            kind,
            SzErrorKind::Unrecoverable,
        ),
        kind_severity(kind) == "high"@ <==> (kind == SzErrorKind::Database || kind
            == SzErrorKind::NotInitialized),
        kind_severity(kind) == "medium"@ <==> (kind == SzErrorKind::Configuration || (
        is_database_kind(kind) && in_family(kind, SzErrorKind::Retryable))),
        kind_severity(kind) == "critical"@ || kind_severity(kind) == "high"@ || kind_severity(kind)
            == "medium"@ || kind_severity(kind) == "low"@,
{
    reveal_strlit("critical");
    reveal_strlit("high");
    reveal_strlit("medium");
    reveal_strlit("low");
    assert("critical"@.len() == 8 && "high"@.len() == 4 && "medium"@.len() == 6 && "low"@.len()
        == 3);
}

impl SzErrorKind {
    /// Returns `true` if this is a bad input kind (BadInput, NotFound, UnknownDataSource).
    pub fn is_bad_input(self) -> (b: bool)
        ensures
            b == in_family(self, SzErrorKind::BadInput),
    {
        match self {
            SzErrorKind::BadInput | SzErrorKind::NotFound | SzErrorKind::UnknownDataSource => true,
            _ => false,
        }
    }

    /// Returns `true` if this is a general kind (General, Configuration, ReplaceConflict, Sdk).
    pub fn is_general(self) -> (b: bool)
        ensures
            b == in_family(self, SzErrorKind::General),
    {
        match self {
            SzErrorKind::General
            | SzErrorKind::Configuration
            | SzErrorKind::ReplaceConflict
            | SzErrorKind::Sdk => true,
            _ => false,
        }
    }

    /// Returns `true` if this is a retryable kind (Retryable, DatabaseConnectionLost,
    /// DatabaseTransient, RetryTimeoutExceeded).
    pub fn is_retryable(self) -> (b: bool)
        ensures
            b == in_family(self, SzErrorKind::Retryable),
    {
        match self {
            SzErrorKind::Retryable
            | SzErrorKind::DatabaseConnectionLost
            | SzErrorKind::DatabaseTransient
            | SzErrorKind::RetryTimeoutExceeded => true,
            _ => false,
        }
    }

    /// Returns `true` if this is an unrecoverable kind (Unrecoverable, Database, License,
    /// NotInitialized, Unhandled).
    pub fn is_unrecoverable(self) -> (b: bool)
        ensures
            b == in_family(self, SzErrorKind::Unrecoverable),
    {
        match self {
            SzErrorKind::Unrecoverable
            | SzErrorKind::Database
            | SzErrorKind::License
            | SzErrorKind::NotInitialized
            | SzErrorKind::Unhandled => true,
            _ => false,
        }
    }

    /// Returns `true` if this is a database-related kind, regardless of retryability
    /// (Database, DatabaseConnectionLost, DatabaseTransient).
    pub fn is_database(self) -> (b: bool)
        ensures
            b == is_database_kind(self),
    {
        match self {
            SzErrorKind::Database
            | SzErrorKind::DatabaseConnectionLost
            | SzErrorKind::DatabaseTransient => true,
            _ => false,
        }
    }

    /// Returns `true` for any kind: `SzError` is the root of the hierarchy.
    pub fn is_sz_error(self) -> (b: bool)
        ensures
            b,
    {
        true
    }

    /// Hierarchy-aware kind check.
    ///
    /// For the parent categories (`SzError`, `BadInput`, `Database`,
    /// `General`, `Retryable`, `Unrecoverable`) all child kinds match; for
    /// leaf kinds the comparison is exact.
    pub fn is(self, kind: SzErrorKind) -> (b: bool)
        ensures
            b == kind_matches(self, kind),
    {
        match kind {
            SzErrorKind::BadInput => self.is_bad_input(),
            SzErrorKind::Database => self.is_database(),
            SzErrorKind::General => self.is_general(),
            SzErrorKind::Retryable => self.is_retryable(),
            SzErrorKind::Unrecoverable => self.is_unrecoverable(),
            SzErrorKind::SzError => true,
            other => self == other,
        }
    }

    /// Returns the severity level: `"critical"` (License, Unrecoverable,
    /// Unhandled), `"high"` (Database, NotInitialized), `"medium"`
    /// (Configuration, DatabaseConnectionLost, DatabaseTransient) or `"low"`.
    pub fn severity(self) -> (level: &'static str)
        ensures
            level@ == kind_severity(self),
    {
        match self {
            SzErrorKind::License | SzErrorKind::Unrecoverable | SzErrorKind::Unhandled => {
                "critical"
            },
            SzErrorKind::Database | SzErrorKind::NotInitialized => "high",
            SzErrorKind::Configuration
            | SzErrorKind::DatabaseConnectionLost
            | SzErrorKind::DatabaseTransient => "medium",
            _ => "low",
        }
    }

    /// Returns the kind hierarchy as a static slice, ordered leaf-first:
    /// a leaf followed by its parent, or a parent (or the root) alone.
    pub fn hierarchy(self) -> (chain: &'static [SzErrorKind])
        ensures
            chain@ == kind_hierarchy(self),
    {
        match self {
            SzErrorKind::BadInput => &[SzErrorKind::BadInput],
            SzErrorKind::NotFound => &[SzErrorKind::NotFound, SzErrorKind::BadInput],
            SzErrorKind::UnknownDataSource => &[
                SzErrorKind::UnknownDataSource,
                SzErrorKind::BadInput,
            ],
            SzErrorKind::General => &[SzErrorKind::General],
            SzErrorKind::Configuration => &[SzErrorKind::Configuration, SzErrorKind::General],
            SzErrorKind::ReplaceConflict => &[SzErrorKind::ReplaceConflict, SzErrorKind::General],
            SzErrorKind::Sdk => &[SzErrorKind::Sdk, SzErrorKind::General],
            SzErrorKind::Retryable => &[SzErrorKind::Retryable],
            SzErrorKind::DatabaseConnectionLost => &[
                SzErrorKind::DatabaseConnectionLost,
                SzErrorKind::Retryable,
            ],
            SzErrorKind::DatabaseTransient => &[
                SzErrorKind::DatabaseTransient,
                SzErrorKind::Retryable,
            ],
            SzErrorKind::RetryTimeoutExceeded => &[
                SzErrorKind::RetryTimeoutExceeded,
                SzErrorKind::Retryable,
            ],
            SzErrorKind::Unrecoverable => &[SzErrorKind::Unrecoverable],
            SzErrorKind::Database => &[SzErrorKind::Database, SzErrorKind::Unrecoverable],
            SzErrorKind::License => &[SzErrorKind::License, SzErrorKind::Unrecoverable],
            SzErrorKind::NotInitialized => &[
                SzErrorKind::NotInitialized,
                SzErrorKind::Unrecoverable,
            ],
            SzErrorKind::Unhandled => &[SzErrorKind::Unhandled, SzErrorKind::Unrecoverable],
            SzErrorKind::SzError => &[SzErrorKind::SzError],
        }
    }

    /// Returns `true` if this is a configuration error.
    pub fn is_configuration(self) -> (b: bool)
        ensures
            b == (self == SzErrorKind::Configuration),
    {
        self == SzErrorKind::Configuration
    }

    /// Returns `true` if this is a license error.
    pub fn is_license(self) -> (b: bool)
        ensures
            b == (self == SzErrorKind::License),
    {
        self == SzErrorKind::License
    }

    /// Returns `true` if this is a not-found error.
    pub fn is_not_found(self) -> (b: bool)
        ensures
            b == (self == SzErrorKind::NotFound),
    {
        self == SzErrorKind::NotFound
    }

    /// Returns `true` if this is a not-initialized error.
    pub fn is_not_initialized(self) -> (b: bool)
        ensures
            b == (self == SzErrorKind::NotInitialized),
    {
        self == SzErrorKind::NotInitialized
    }

    /// Returns `true` if this is a replace-conflict error.
    pub fn is_replace_conflict(self) -> (b: bool)
        ensures
            b == (self == SzErrorKind::ReplaceConflict),
    {
        self == SzErrorKind::ReplaceConflict
    }

    /// Returns `true` if this is an SDK error.
    pub fn is_sdk(self) -> (b: bool)
        ensures
            b == (self == SzErrorKind::Sdk),
    {
        self == SzErrorKind::Sdk
    }

    /// Returns `true` if this is an unhandled error.
    pub fn is_unhandled(self) -> (b: bool)
        ensures
            b == (self == SzErrorKind::Unhandled),
    {
        self == SzErrorKind::Unhandled
    }

    /// Returns `true` if this is an unknown-data-source error.
    pub fn is_unknown_data_source(self) -> (b: bool)
        ensures
            b == (self == SzErrorKind::UnknownDataSource),
    {
        self == SzErrorKind::UnknownDataSource
    }

    /// Returns the error category as a static string slug.
    pub fn category(self) -> (slug: &'static str)
        ensures
            slug@ == kind_category(self),
    {
        match self {
            SzErrorKind::BadInput => "bad_input",
            SzErrorKind::Configuration => "configuration",
            SzErrorKind::Database => "database",
            SzErrorKind::DatabaseConnectionLost => "database_connection_lost",
            SzErrorKind::DatabaseTransient => "database_transient",
            SzErrorKind::General => "general",
            SzErrorKind::License => "license",
            SzErrorKind::NotFound => "not_found",
            SzErrorKind::NotInitialized => "not_initialized",
            SzErrorKind::ReplaceConflict => "replace_conflict",
            SzErrorKind::Retryable => "retryable",
            SzErrorKind::RetryTimeoutExceeded => "retry_timeout_exceeded",
            SzErrorKind::Sdk => "sdk",
            SzErrorKind::SzError => "sz_error",
            SzErrorKind::Unhandled => "unhandled",
            SzErrorKind::UnknownDataSource => "unknown_data_source",
            SzErrorKind::Unrecoverable => "unrecoverable",
        }
    }

    /// Returns the human-readable label of the kind.
    pub(crate) fn label(self) -> (text: &'static str)
        ensures
            text@ == kind_label(self),
    {
        match self {
            SzErrorKind::BadInput => "bad input",
            SzErrorKind::Configuration => "configuration error",
            SzErrorKind::Database => "database error",
            SzErrorKind::DatabaseConnectionLost => "database connection lost",
            SzErrorKind::DatabaseTransient => "database transient error",
            SzErrorKind::General => "general error",
            SzErrorKind::License => "license error",
            SzErrorKind::NotFound => "not found",
            SzErrorKind::NotInitialized => "not initialized",
            SzErrorKind::ReplaceConflict => "replace conflict",
            SzErrorKind::Retryable => "retryable error",
            SzErrorKind::RetryTimeoutExceeded => "retry timeout exceeded",
            SzErrorKind::Sdk => "SDK error",
            SzErrorKind::SzError => "Senzing error",
            SzErrorKind::Unhandled => "unhandled error",
            SzErrorKind::UnknownDataSource => "unknown data source",
            SzErrorKind::Unrecoverable => "unrecoverable error",
        }
    }

    /// Returns the display text of the kind: its label.
    pub fn to_string(&self) -> (text: String)
        ensures
            text@ == kind_label(*self),
    {
        self.label().to_owned()
    }
}

} // verus!
