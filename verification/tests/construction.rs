//! Tests of error construction and kind classification, as exercised by
//! the earlier test suite of the error module.
use sz_sdk::{SzComponent, SzError, SzErrorKind};

#[test]
fn error_tests_from_code_bad_input() {
    let err = SzError::new("test").with_code(2);
    assert_eq!(err.kind(), SzErrorKind::BadInput);
    assert_eq!(err.code(), Some(2));
}

#[test]
fn error_tests_from_code_configuration() {
    let err = SzError::new("test").with_code(14);
    assert_eq!(err.kind(), SzErrorKind::Configuration);
    assert_eq!(err.code(), Some(14));
}

#[test]
fn error_tests_from_code_database() {
    let err = SzError::new("test").with_code(1000);
    assert_eq!(err.kind(), SzErrorKind::Database);
    assert_eq!(err.code(), Some(1000));
}

#[test]
fn error_tests_from_code_database_connection_lost() {
    let err = SzError::new("test").with_code(1006);
    assert_eq!(err.kind(), SzErrorKind::DatabaseConnectionLost);
    assert_eq!(err.code(), Some(1006));
}

#[test]
fn error_tests_from_code_database_transient() {
    let err = SzError::new("test").with_code(1008);
    assert_eq!(err.kind(), SzErrorKind::DatabaseTransient);
    assert_eq!(err.code(), Some(1008));
}

#[test]
fn error_tests_from_code_general() {
    let err = SzError::new("test").with_code(5);
    assert_eq!(err.kind(), SzErrorKind::General);
    assert_eq!(err.code(), Some(5));
}

#[test]
fn error_tests_from_code_license() {
    let err = SzError::new("test").with_code(999);
    assert_eq!(err.kind(), SzErrorKind::License);
    assert_eq!(err.code(), Some(999));
}

#[test]
fn error_tests_from_code_not_found() {
    let err = SzError::new("test").with_code(33);
    assert_eq!(err.kind(), SzErrorKind::NotFound);
    assert_eq!(err.code(), Some(33));
}

#[test]
fn error_tests_from_code_not_initialized() {
    let err = SzError::new("test").with_code(48);
    assert_eq!(err.kind(), SzErrorKind::NotInitialized);
    assert_eq!(err.code(), Some(48));
}

#[test]
fn error_tests_from_code_replace_conflict() {
    let err = SzError::new("test").with_code(7245);
    assert_eq!(err.kind(), SzErrorKind::ReplaceConflict);
    assert_eq!(err.code(), Some(7245));
}

#[test]
fn error_tests_from_code_retry_timeout_exceeded() {
    let err = SzError::new("test").with_code(10);
    assert_eq!(err.kind(), SzErrorKind::RetryTimeoutExceeded);
    assert_eq!(err.code(), Some(10));
}

#[test]
fn error_tests_from_code_unhandled() {
    let err = SzError::new("test").with_code(87);
    assert_eq!(err.kind(), SzErrorKind::Unhandled);
    assert_eq!(err.code(), Some(87));
}

#[test]
fn error_tests_from_code_unknown_data_source() {
    let err = SzError::new("test").with_code(2207);
    assert_eq!(err.kind(), SzErrorKind::UnknownDataSource);
    assert_eq!(err.code(), Some(2207));
}

#[test]
fn error_tests_from_code_preserves_message() {
    let err = SzError::new("my message").with_code(2);
    assert_eq!(err.message(), "my message");
}

#[test]
fn error_tests_new_sets_message_and_defaults() {
    let err = SzError::new("something broke");
    assert_eq!(err.message(), "something broke");
    assert_eq!(err.code(), None);
    assert_eq!(err.kind(), SzErrorKind::default());
    assert_eq!(err.kind(), SzErrorKind::SzError);
    assert_eq!(err.component(), None);
}

#[test]
fn error_tests_new_with_empty_message() {
    let err = SzError::new(String::new());
    assert_eq!(err.message(), "");
    assert_eq!(err.code(), None);
    assert_eq!(err.kind(), SzErrorKind::SzError);
}

#[test]
fn error_tests_with_code_sets_code_and_kind() {
    let err = SzError::new("test").with_code(2);
    assert_eq!(err.code(), Some(2));
    assert_eq!(err.kind(), SzErrorKind::BadInput);
}

#[test]
fn error_tests_with_code_zero_defaults_to_general() {
    let err = SzError::new("test").with_code(0);
    assert_eq!(err.kind(), SzErrorKind::General);
    assert_eq!(err.code(), Some(0));
}

#[test]
fn error_tests_with_code_each_category() {
    let cases: &[(i64, SzErrorKind)] = &[
        (2, SzErrorKind::BadInput),
        (14, SzErrorKind::Configuration),
        (1000, SzErrorKind::Database),
        (1006, SzErrorKind::DatabaseConnectionLost),
        (1008, SzErrorKind::DatabaseTransient),
        (999, SzErrorKind::License),
        (33, SzErrorKind::NotFound),
        (48, SzErrorKind::NotInitialized),
        (7245, SzErrorKind::ReplaceConflict),
        (10, SzErrorKind::RetryTimeoutExceeded),
        (87, SzErrorKind::Unhandled),
        (2207, SzErrorKind::UnknownDataSource),
    ];
    for &(code, expected_kind) in cases {
        let err = SzError::new("test").with_code(code);
        assert_eq!(err.code(), Some(code), "code {code}");
        assert_eq!(err.kind(), expected_kind, "kind for code {code}");
    }
}

#[test]
fn error_tests_with_code_called_twice_re_derives_kind() {
    let err = SzError::new("test")
        .with_code(2)    // BadInput
        .with_code(999); // License
    assert_eq!(err.kind(), SzErrorKind::License);
    assert_eq!(err.code(), Some(999));
}

#[test]
fn error_tests_with_code_overrides_previous_code() {
    let err = SzError::new("test").with_code(2).with_code(1006);
    assert_eq!(err.code(), Some(1006));
    assert_eq!(err.kind(), SzErrorKind::DatabaseConnectionLost);
}

#[test]
fn error_tests_with_code_preserves_message_and_component() {
    let err = SzError::new("my message")
        .with_component(SzComponent::Engine)
        .with_code(33);
    assert_eq!(err.message(), "my message");
    assert_eq!(err.component(), Some(SzComponent::Engine));
    assert_eq!(err.code(), Some(33));
    assert_eq!(err.kind(), SzErrorKind::NotFound);
}

#[test]
fn error_tests_with_kind_overrides_default() {
    let err = SzError::new("test").with_kind(SzErrorKind::License);
    assert_eq!(err.kind(), SzErrorKind::License);
}

#[test]
fn error_tests_with_kind_overrides_code_derived_kind() {
    let err = SzError::new("test")
        .with_code(2) // would set BadInput
        .with_kind(SzErrorKind::Unrecoverable);
    assert_eq!(err.kind(), SzErrorKind::Unrecoverable);
    assert_eq!(err.code(), Some(2));
}

#[test]
fn error_tests_clone_preserves_kind_explicit() {
    let err = SzError::new("test")
        .with_kind(SzErrorKind::License)
        .with_code(2); // kind stays License because kind_explicit=true
    let cloned = err.clone().with_code(999); // should still stay License
    assert_eq!(cloned.kind(), SzErrorKind::License);
    assert_eq!(cloned.code(), Some(999));
}

#[test]
fn error_tests_with_kind_before_with_code_preserves_kind() {
    let err = SzError::new("test")
        .with_kind(SzErrorKind::License)
        .with_code(2); // code 2 would normally derive BadInput
    assert_eq!(err.kind(), SzErrorKind::License);
    assert_eq!(err.code(), Some(2));
}

#[test]
fn error_tests_with_message_called_twice_overwrites() {
    let err = SzError::new("first").with_message("second");
    assert_eq!(err.message(), "second");
}

#[test]
fn error_tests_with_component_called_twice_overwrites() {
    let err = SzError::new("test")
        .with_component(SzComponent::Engine)
        .with_component(SzComponent::Config);
    assert_eq!(err.component(), Some(SzComponent::Config));
}

#[test]
fn error_tests_with_message_overrides_initial() {
    let err = SzError::new("initial").with_message("replaced");
    assert_eq!(err.message(), "replaced");
}

#[test]
fn error_tests_with_message_accepts_string() {
    let msg = String::from("owned message");
    let err = SzError::new("initial").with_message(msg);
    assert_eq!(err.message(), "owned message");
}

#[test]
fn error_tests_from_kind_then_with_code_preserves_kind() {
    let err = SzError::from(SzErrorKind::Unrecoverable).with_code(2);
    assert_eq!(err.kind(), SzErrorKind::Unrecoverable);
    assert_eq!(err.code(), Some(2));
}

#[test]
fn error_tests_from_kind_produces_no_code() {
    let err: SzError = SzErrorKind::BadInput.into();
    assert_eq!(err.code(), None);
    assert_eq!(err.message(), "");
    assert_eq!(err.kind(), SzErrorKind::BadInput);
}

#[test]
fn error_tests_kind_is_bad_input() {
    assert!(SzErrorKind::BadInput.is_bad_input());
    assert!(SzErrorKind::NotFound.is_bad_input());
    assert!(SzErrorKind::UnknownDataSource.is_bad_input());
    assert!(!SzErrorKind::General.is_bad_input());
}

#[test]
fn error_tests_kind_is_general() {
    assert!(SzErrorKind::General.is_general());
    assert!(SzErrorKind::Configuration.is_general());
    assert!(SzErrorKind::ReplaceConflict.is_general());
    assert!(SzErrorKind::Sdk.is_general());
    assert!(!SzErrorKind::BadInput.is_general());
}

#[test]
fn error_tests_kind_is_retryable() {
    assert!(SzErrorKind::Retryable.is_retryable());
    assert!(SzErrorKind::DatabaseConnectionLost.is_retryable());
    assert!(SzErrorKind::DatabaseTransient.is_retryable());
    assert!(SzErrorKind::RetryTimeoutExceeded.is_retryable());
    assert!(!SzErrorKind::General.is_retryable());
}

#[test]
fn error_tests_kind_is_sz_error() {
    // Every variant is an SzError — it's the root of the hierarchy.
    assert!(SzErrorKind::SzError.is_sz_error());
    assert!(SzErrorKind::BadInput.is_sz_error());
    assert!(SzErrorKind::NotFound.is_sz_error());
    assert!(SzErrorKind::UnknownDataSource.is_sz_error());
    assert!(SzErrorKind::General.is_sz_error());
    assert!(SzErrorKind::Configuration.is_sz_error());
    assert!(SzErrorKind::ReplaceConflict.is_sz_error());
    assert!(SzErrorKind::Sdk.is_sz_error());
    assert!(SzErrorKind::Retryable.is_sz_error());
    assert!(SzErrorKind::DatabaseConnectionLost.is_sz_error());
    assert!(SzErrorKind::DatabaseTransient.is_sz_error());
    assert!(SzErrorKind::RetryTimeoutExceeded.is_sz_error());
    assert!(SzErrorKind::Unrecoverable.is_sz_error());
    assert!(SzErrorKind::Database.is_sz_error());
    assert!(SzErrorKind::License.is_sz_error());
    assert!(SzErrorKind::NotInitialized.is_sz_error());
    assert!(SzErrorKind::Unhandled.is_sz_error());
}

#[test]
fn error_tests_kind_sz_error_is_not_in_subcategories() {
    // SzError is the root — it does not belong to any subcategory.
    assert!(!SzErrorKind::SzError.is_bad_input());
    assert!(!SzErrorKind::SzError.is_general());
    assert!(!SzErrorKind::SzError.is_retryable());
    assert!(!SzErrorKind::SzError.is_unrecoverable());
}
