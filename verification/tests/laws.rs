//! Concrete checks of the library's laws and of edge cases of display and
//! classification.
use sz_sdk::error::{is, is_bad_input, is_general, is_kind, is_retryable, is_unrecoverable};
use sz_sdk::parameters::{
    SZ_INITIALIZE_WITH_DEFAULT_CONFIGURATION, SZ_NO_ATTRIBUTES, SZ_NO_LOGGING, SZ_VERBOSE_LOGGING,
    SZ_WITHOUT_INFO,
};
use sz_sdk::{AnyError, SzComponent, SzError, SzErrorInspect, SzErrorKind, SzResult, SzResultExt};

const ALL_KINDS: [SzErrorKind; 17] = [
    SzErrorKind::BadInput,
    SzErrorKind::Configuration,
    SzErrorKind::Database,
    SzErrorKind::DatabaseConnectionLost,
    SzErrorKind::DatabaseTransient,
    SzErrorKind::General,
    SzErrorKind::License,
    SzErrorKind::NotFound,
    SzErrorKind::NotInitialized,
    SzErrorKind::ReplaceConflict,
    SzErrorKind::Retryable,
    SzErrorKind::RetryTimeoutExceeded,
    SzErrorKind::Sdk,
    SzErrorKind::SzError,
    SzErrorKind::Unhandled,
    SzErrorKind::UnknownDataSource,
    SzErrorKind::Unrecoverable,
];

const HEADS: [SzErrorKind; 4] = [
    SzErrorKind::BadInput,
    SzErrorKind::General,
    SzErrorKind::Retryable,
    SzErrorKind::Unrecoverable,
];

fn family_count(kind: SzErrorKind) -> usize {
    [
        kind.is_bad_input(),
        kind.is_general(),
        kind.is_retryable(),
        kind.is_unrecoverable(),
    ]
    .iter()
    .filter(|b| **b)
    .count()
}

fn plain_error(message: &str) -> AnyError {
    AnyError::Other {
        message: message.to_string(),
        source: None,
    }
}

#[test]
fn law_every_kind_matches_the_root_and_itself() {
    for kind in ALL_KINDS {
        assert!(kind.is(SzErrorKind::SzError), "{kind:?}");
        assert!(kind.is(kind), "{kind:?}");
        assert!(kind.is_sz_error(), "{kind:?}");
    }
}

#[test]
fn law_families_partition_the_kinds() {
    for kind in ALL_KINDS {
        if kind == SzErrorKind::SzError {
            assert_eq!(family_count(kind), 0);
        } else {
            assert_eq!(family_count(kind), 1, "{kind:?}");
        }
    }
}

#[test]
fn law_hierarchy_shape_for_every_kind() {
    for kind in ALL_KINDS {
        let h = kind.hierarchy();
        assert_eq!(h[0], kind);
        if kind == SzErrorKind::SzError || HEADS.contains(&kind) {
            assert_eq!(h.len(), 1, "{kind:?}");
        } else {
            assert_eq!(h.len(), 2, "{kind:?}");
            assert!(HEADS.contains(&h[1]), "{kind:?}");
        }
        for ancestor in h {
            assert!(kind.is(*ancestor), "{kind:?} / {ancestor:?}");
        }
    }
}

#[test]
fn law_leaf_match_is_exact_for_every_pair() {
    for leaf in ALL_KINDS {
        if leaf == SzErrorKind::SzError || HEADS.contains(&leaf) || leaf == SzErrorKind::Database {
            continue;
        }
        for kind in ALL_KINDS {
            assert_eq!(kind.is(leaf), kind == leaf, "{kind:?} / {leaf:?}");
        }
    }
}

#[test]
fn law_database_group_spans_two_families() {
    for kind in ALL_KINDS {
        if kind.is_database() {
            assert!(kind.is_retryable() || kind.is_unrecoverable(), "{kind:?}");
            assert!(!kind.is_bad_input() && !kind.is_general(), "{kind:?}");
            assert!(kind.is(SzErrorKind::Database));
        } else {
            assert!(!kind.is(SzErrorKind::Database), "{kind:?}");
        }
    }
}

#[test]
fn law_explicit_kind_survives_code() {
    let err = SzError::new("m").with_kind(SzErrorKind::Sdk).with_code(1006);
    assert_eq!(err.kind(), SzErrorKind::Sdk);
    assert_eq!(err.code(), Some(1006));
    let err = SzError::from(SzErrorKind::License).with_code(2).with_code(33);
    assert_eq!(err.kind(), SzErrorKind::License);
    assert_eq!(err.code(), Some(33));
}

#[test]
fn law_code_derives_kind_without_explicit_kind() {
    assert_eq!(SzError::new("m").with_code(7245).kind(), SzErrorKind::ReplaceConflict);
    assert_eq!(SzError::new("m").with_code(i64::MIN).kind(), SzErrorKind::SzError);
    assert_eq!(SzError::from_code(1008, "m").kind(), SzErrorKind::DatabaseTransient);
    assert_eq!(SzError::from_code(1008, "m").code(), Some(1008));
    assert_eq!(SzError::from_code(4, String::from("m")).kind(), SzErrorKind::General);
}

#[test]
fn law_last_code_wins() {
    let twice = SzError::new("m").with_code(999).with_code(14);
    let once = SzError::new("m").with_code(14);
    assert_eq!(twice.kind(), once.kind());
    assert_eq!(twice.code(), once.code());
    assert_eq!(twice.message(), once.message());
}

#[test]
fn law_kind_overrides_code() {
    let err = SzError::new("m").with_code(999).with_kind(SzErrorKind::NotFound);
    assert_eq!(err.kind(), SzErrorKind::NotFound);
    assert_eq!(err.code(), Some(999));
}

#[test]
fn law_first_sz_error_of_links() {
    let direct = AnyError::from(SzError::not_found("x"));
    assert_eq!(SzError::find_in_chain(&direct).unwrap().kind(), SzErrorKind::NotFound);
    let via = AnyError::Other {
        message: "outer".to_string(),
        source: Some(Box::new(AnyError::from(SzError::license("inner")))),
    };
    assert_eq!(SzError::find_in_chain(&via).unwrap().message(), "inner");
    assert!(SzError::find_in_chain(&plain_error("alone")).is_none());
}

#[test]
fn first_sz_error_stops_at_the_outer_but_family_checks_walk_on() {
    let inner = SzError::database_transient("deadlock");
    let outer = SzError::new("wrapper").with_source(AnyError::from(inner));
    let chain = AnyError::from(outer);
    let found = SzError::find_in_chain(&chain).unwrap();
    assert_eq!(found.message(), "wrapper");
    assert_eq!(found.kind(), SzErrorKind::SzError);
    assert!(!chain.is_sz(SzErrorKind::Retryable));
    assert!(chain.is_sz_retryable());
}

#[test]
fn law_filter_retryable_partition() {
    let ok: SzResult<u8> = Ok(7);
    assert_eq!(ok.filter_retryable().unwrap(), Some(7));
    let retry: SzResult<u8> = Err(SzError::retry_timeout_exceeded("t"));
    assert!(retry.is_retryable_err());
    assert_eq!(retry.filter_retryable().unwrap(), None);
    let bad: SzResult<u8> = Err(SzError::unknown_data_source("FAKE"));
    assert!(!bad.is_retryable_err());
    let kept = bad.filter_retryable().unwrap_err();
    assert_eq!(kept.kind(), SzErrorKind::UnknownDataSource);
    assert_eq!(kept.message(), "FAKE");
}

#[test]
fn or_retry_hands_the_error_to_the_closure() {
    let r: SzResult<String> = Err(SzError::retryable("again").with_code(10));
    let out = r.or_retry(|e| Ok(format!("{}:{:?}", e.message(), e.code())));
    assert_eq!(out.unwrap(), "again:Some(10)");
}

#[test]
fn law_inspection_sees_through_wrapping() {
    let direct = SzError::database_connection_lost("gone");
    assert!(direct.is_sz(SzErrorKind::Retryable));
    let start = AnyError::from(SzError::database_connection_lost("gone"));
    assert!(start.is_sz(SzErrorKind::Retryable));
    let wrapped = AnyError::Other {
        message: "ctx".to_string(),
        source: Some(Box::new(AnyError::from(SzError::database_connection_lost("gone")))),
    };
    assert!(wrapped.is_sz(SzErrorKind::Retryable));
    assert_eq!(wrapped.sz_severity(), Some("medium"));
    assert_eq!(wrapped.sz_component(), None);
}

#[test]
fn display_of_every_shape() {
    assert_eq!(SzError::new("m").to_string(), "Senzing error: m");
    assert_eq!(
        SzError::new("m").with_details("d").to_string(),
        "Senzing error: m [d]"
    );
    assert_eq!(
        SzError::new("m").with_code(1000).with_details("d").to_string(),
        "database error (code 1000): m [d]"
    );
    assert_eq!(
        SzError::new("m").with_code(-42).to_string(),
        "Senzing error (code -42): m"
    );
    assert_eq!(
        SzError::general("m").with_code(i64::MIN).to_string(),
        "general error (code -9223372036854775808): m"
    );
    assert_eq!(
        SzError::general("m").with_code(i64::MAX).to_string(),
        "general error (code 9223372036854775807): m"
    );
    assert_eq!(SzError::sdk("m").with_code(0).to_string(), "SDK error (code 0): m");
}

#[test]
fn display_of_chain_links() {
    let sz = AnyError::from(SzError::not_found("entity 42").with_code(33));
    assert_eq!(sz.to_string(), "not found (code 33): entity 42");
    assert_eq!(plain_error("disk full").to_string(), "disk full");
}

#[test]
fn wrap_of_a_senzing_error_uses_its_display() {
    let inner = AnyError::from(SzError::license("expired").with_code(999));
    let err = SzError::wrap(inner);
    assert_eq!(err.kind(), SzErrorKind::Sdk);
    assert_eq!(err.message(), "license error (code 999): expired");
    assert!(err.source().unwrap().is_sz_unrecoverable());
}

#[test]
fn clone_keeps_the_whole_chain() {
    let err = SzError::unhandled("top")
        .with_code(87)
        .with_component(SzComponent::Product)
        .with_details("d")
        .with_source(AnyError::Other {
            message: "mid".to_string(),
            source: Some(Box::new(AnyError::from(SzError::sdk("bottom")))),
        });
    let copy = err.clone();
    assert_eq!(copy.to_string(), err.to_string());
    let mid = copy.source().unwrap();
    assert_eq!(mid.to_string(), "mid");
    let bottom = mid.source().unwrap();
    assert_eq!(bottom.to_string(), "SDK error: bottom");
    assert!(bottom.source().is_none());
}

#[test]
fn direct_classification_does_not_walk_the_chain() {
    let wrapped = AnyError::Other {
        message: "ctx".to_string(),
        source: Some(Box::new(AnyError::from(SzError::not_found("x")))),
    };
    assert!(!is_bad_input(&wrapped));
    assert!(wrapped.is_sz_bad_input());
    let direct = AnyError::from(SzError::not_found("x"));
    assert!(is_bad_input(&direct));
    assert!(is(&direct, SzErrorKind::BadInput));
    assert!(is_kind(&direct, SzErrorKind::NotFound));
    assert!(!is_kind(&direct, SzErrorKind::BadInput));
    assert!(!is_general(&direct));
    assert!(!is_retryable(&direct));
    assert!(!is_unrecoverable(&direct));
}

#[test]
fn component_text() {
    assert_eq!(SzComponent::ConfigManager.to_string(), "SzConfigManager");
    assert_eq!(SzComponent::Diagnostic.as_str(), "SzDiagnostic");
}

#[test]
fn default_kind_is_the_root() {
    assert_eq!(SzErrorKind::default(), SzErrorKind::SzError);
}

fn assert_send_sync<T: Send + Sync>() {}

#[test]
fn errors_are_send_and_sync() {
    assert_send_sync::<SzError>();
    assert_send_sync::<AnyError>();
}

#[test]
fn parameter_constants() {
    assert_eq!(SZ_INITIALIZE_WITH_DEFAULT_CONFIGURATION, 0);
    assert_eq!(SZ_NO_ATTRIBUTES, "");
    assert_eq!(SZ_NO_LOGGING, 0);
    assert_eq!(SZ_VERBOSE_LOGGING, 1);
    assert_eq!(SZ_WITHOUT_INFO, 0);
}

#[test]
fn law_unknown_codes_give_the_root() {
    for code in [0, 2, 5, 10, 14, 33, 48, 87, 999, 1000, 1006, 1008, 2207, 7245] {
        assert_ne!(SzError::new("m").with_code(code).kind(), SzErrorKind::SzError, "{code}");
    }
    for code in [-1, 1, 3, 4, 6, 1001, 999999, i64::MAX, i64::MIN] {
        assert_eq!(SzError::new("m").with_code(code).kind(), SzErrorKind::SzError, "{code}");
    }
}

#[test]
fn from_code_gives_general_for_unknown_codes() {
    for code in [999999, -1, i64::MAX, i64::MIN] {
        let err = SzError::from_code(code, "m");
        assert_eq!(err.kind(), SzErrorKind::General, "{code}");
        assert_eq!(err.code(), Some(code));
        assert_eq!(err.message(), "m");
        assert!(err.source().is_none());
    }
    assert_eq!(SzError::from_code(33, "m").kind(), SzErrorKind::NotFound);
    assert_eq!(SzError::from_code(1006, "m").kind(), SzErrorKind::DatabaseConnectionLost);
    assert_eq!(SzError::from_code(999, "m").kind(), SzErrorKind::License);
    assert_eq!(SzError::from_code(0, "m").kind(), SzErrorKind::General);
}

#[test]
fn free_is_matches_family_heads_and_exact_kinds() {
    let transient = AnyError::from(SzError::database_transient("deadlock"));
    assert!(!is(&transient, SzErrorKind::Database));
    assert!(is(&transient, SzErrorKind::Retryable));
    assert!(is(&transient, SzErrorKind::DatabaseTransient));
    assert!(is(&transient, SzErrorKind::SzError));
    assert!(!is(&transient, SzErrorKind::DatabaseConnectionLost));
    let database = AnyError::from(SzError::database("schema"));
    assert!(is(&database, SzErrorKind::Database));
    assert!(is(&database, SzErrorKind::Unrecoverable));
    for kind in ALL_KINDS {
        assert!(is(&AnyError::from(SzError::from(kind)), SzErrorKind::SzError), "{kind:?}");
    }
    assert!(!is(&plain_error("not senzing"), SzErrorKind::SzError));
}

#[test]
fn chain_predicates_see_nested_senzing_errors() {
    let outer = SzError::not_found("x").with_source(AnyError::from(SzError::database_transient("y")));
    assert!(outer.is_sz_retryable());
    assert!(outer.is_sz_bad_input());
    assert!(outer.is_sz_database());
    assert!(!outer.is_sz_general());
    assert!(!outer.is_sz_unrecoverable());
    // `is_sz` and the first-error accessors look at the first one only.
    assert!(!outer.is_sz(SzErrorKind::Retryable));
    assert_eq!(outer.sz_error().unwrap().kind(), SzErrorKind::NotFound);
    assert_eq!(outer.sz_severity(), Some("low"));

    let chain = AnyError::Other {
        message: "ctx".to_string(),
        source: Some(Box::new(AnyError::from(
            SzError::configuration("c").with_source(AnyError::Other {
                message: "mid".to_string(),
                source: Some(Box::new(AnyError::from(SzError::license("l")))),
            }),
        ))),
    };
    assert!(chain.is_sz_general());
    assert!(chain.is_sz_unrecoverable());
    assert!(!chain.is_sz_retryable());
    assert!(!chain.is_sz_database());
    assert!(!plain_error("alone").is_sz_unrecoverable());
}
