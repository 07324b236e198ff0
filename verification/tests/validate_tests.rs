//! Tests for the validator chain: protected-name check, cardinality check,
//! their fixed order, and the shipped default limits.

use bucket_sweep::validate::{
    contains_substring, length_validator, name_is_protected, protect_names_validator, validate,
    usize_to_decimal, ValidationError, ValidationOutcome, ValidatorConfig, MAX_BUCKETS,
};

fn names(xs: &[&str]) -> Vec<String> {
    xs.iter().map(|s| s.to_string()).collect()
}

#[test]
fn substring_found_in_middle() {
    assert!(contains_substring("x-do-not-delete-y", "do-not-delete"));
}

#[test]
fn substring_at_start_and_end() {
    assert!(contains_substring("backup-prod", "backup"));
    assert!(contains_substring("prod-backup", "backup"));
}

#[test]
fn substring_whole_string() {
    assert!(contains_substring("console", "console"));
}

#[test]
fn substring_absent() {
    assert!(!contains_substring("my-logs-2023", "backup"));
    assert!(!contains_substring("backu-p", "backup"));
}

#[test]
fn substring_empty_pattern_always_found() {
    assert!(contains_substring("anything", ""));
    assert!(contains_substring("", ""));
}

#[test]
fn substring_longer_than_string_absent() {
    assert!(!contains_substring("ab", "abc"));
}

#[test]
fn protected_name_detected() {
    let cfg = ValidatorConfig::default();
    assert!(name_is_protected("nightly-backup-2023", &cfg.protected_names));
    assert!(!name_is_protected("temp-cache", &cfg.protected_names));
}

#[test]
fn default_config_limits() {
    let cfg = ValidatorConfig::default();
    assert_eq!(cfg.max_buckets, 5);
    assert_eq!(MAX_BUCKETS, 5);
    assert_eq!(
        cfg.protected_names,
        names(&["backup", "do-not-delete", "console"])
    );
}

#[test]
fn protected_candidate_rejected_regardless_of_others() {
    let cfg = ValidatorConfig::default();
    let selection = names(&["harmless-a", "prod-console-logs", "harmless-b"]);
    assert_eq!(
        validate(&selection, &cfg),
        ValidationOutcome::Invalid(ValidationError::ProtectedName)
    );
    assert_eq!(
        protect_names_validator(&selection, &cfg),
        ValidationOutcome::Invalid(ValidationError::ProtectedName)
    );
}

#[test]
fn oversized_selection_rejected() {
    let cfg = ValidatorConfig::default();
    let selection = names(&["a", "b", "c", "d", "e", "f"]);
    assert_eq!(
        validate(&selection, &cfg),
        ValidationOutcome::Invalid(ValidationError::TooMany { max: 5, actual: 6 })
    );
    assert_eq!(
        length_validator(&selection, &cfg),
        ValidationOutcome::Invalid(ValidationError::TooMany { max: 5, actual: 6 })
    );
}

#[test]
fn empty_selection_rejected() {
    let cfg = ValidatorConfig::default();
    let selection: Vec<String> = Vec::new();
    assert_eq!(
        validate(&selection, &cfg),
        ValidationOutcome::Invalid(ValidationError::EmptySelection)
    );
}

#[test]
fn clean_selections_of_each_size_accepted() {
    let cfg = ValidatorConfig::default();
    let all = names(&["a", "b", "c", "d", "e"]);
    for k in 1..=5usize {
        let selection: Vec<String> = all[..k].to_vec();
        assert_eq!(validate(&selection, &cfg), ValidationOutcome::Valid);
    }
}

#[test]
fn at_cap_selection_accepted_one_over_rejected() {
    let cfg = ValidatorConfig::default();
    assert_eq!(
        validate(&names(&["a", "b", "c", "d", "e"]), &cfg),
        ValidationOutcome::Valid
    );
    assert_eq!(
        validate(&names(&["a", "b", "c", "d", "e", "f"]), &cfg),
        ValidationOutcome::Invalid(ValidationError::TooMany { max: 5, actual: 6 })
    );
}

#[test]
fn protected_check_runs_before_cardinality_check() {
    let cfg = ValidatorConfig::default();
    // Both too many names and a protected one: the protected-name failure wins.
    let selection = names(&["a", "b", "c", "d", "e", "f", "old-backup"]);
    assert_eq!(
        validate(&selection, &cfg),
        ValidationOutcome::Invalid(ValidationError::ProtectedName)
    );
}

#[test]
fn injected_limits_are_honoured() {
    let cfg = ValidatorConfig {
        max_buckets: 1,
        protected_names: names(&["keep"]),
    };
    assert_eq!(validate(&names(&["x"]), &cfg), ValidationOutcome::Valid);
    assert_eq!(
        validate(&names(&["x", "y"]), &cfg),
        ValidationOutcome::Invalid(ValidationError::TooMany { max: 1, actual: 2 })
    );
    assert_eq!(
        validate(&names(&["keeper"]), &cfg),
        ValidationOutcome::Invalid(ValidationError::ProtectedName)
    );
}

#[test]
fn error_messages() {
    assert_eq!(
        ValidationError::ProtectedName.message(),
        "Cannot delete buckets with protected names"
    );
    assert_eq!(
        ValidationError::TooMany { max: 5, actual: 6 }.message(),
        "Maximum of 5 selections. You have 6"
    );
    assert_eq!(
        ValidationError::TooMany { max: 10, actual: 123 }.message(),
        "Maximum of 10 selections. You have 123"
    );
    assert_eq!(ValidationError::EmptySelection.message(), "Must select a bucket");
    assert_eq!(ValidationError::NotEnumerated.message(), "No such bucket was found");
}

#[test]
fn decimal_rendering() {
    assert_eq!(usize_to_decimal(0), "0");
    assert_eq!(usize_to_decimal(7), "7");
    assert_eq!(usize_to_decimal(10), "10");
    assert_eq!(usize_to_decimal(907), "907");
    assert_eq!(usize_to_decimal(100000), "100000");
}
