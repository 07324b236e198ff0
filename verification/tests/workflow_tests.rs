//! Tests for the interactive workflow controller: enumeration failure,
//! selection re-validation, cancellation, and the end-to-end run.

use bucket_sweep::executor::{ExecAction, RunOutcome};
use bucket_sweep::validate::{ValidationError, ValidationOutcome, ValidatorConfig};
use bucket_sweep::workflow::{Workflow, WorkflowState};

fn names(xs: &[&str]) -> Vec<String> {
    xs.iter().map(|s| s.to_string()).collect()
}

#[test]
fn enumeration_failure_is_fatal_before_any_prompt() {
    let mut wf = Workflow::new(ValidatorConfig::default());
    assert!(matches!(wf.state, WorkflowState::Enumerating));
    wf.on_listing_failed("connection refused".to_string());
    match &wf.state {
        WorkflowState::Failed { reason } => assert_eq!(reason, "connection refused"),
        other => panic!("expected Failed, got {:?}", other),
    }
    assert_ne!(wf.exit_code(), 0);
}

#[test]
fn invalid_submission_keeps_selecting() {
    let mut wf = Workflow::new(ValidatorConfig::default());
    wf.on_buckets_listed(names(&["a", "b"]));
    let r = wf.on_selection_submitted(Vec::new());
    assert_eq!(r, ValidationOutcome::Invalid(ValidationError::EmptySelection));
    assert!(matches!(wf.state, WorkflowState::Selecting { .. }));
    let r2 = wf.on_selection_submitted(names(&["a"]));
    assert_eq!(r2, ValidationOutcome::Valid);
    assert!(matches!(wf.state, WorkflowState::Confirming { .. }));
}

#[test]
fn submission_outside_enumerated_set_is_refused() {
    let mut wf = Workflow::new(ValidatorConfig::default());
    wf.on_buckets_listed(names(&["a", "b"]));
    // "c" was never reported by the backend, so the submission is refused
    // even though the validator chain alone would accept it.
    let r = wf.on_selection_submitted(names(&["a", "c"]));
    assert_eq!(r, ValidationOutcome::Invalid(ValidationError::NotEnumerated));
    assert!(matches!(wf.state, WorkflowState::Selecting { .. }));
    let ok = wf.on_selection_submitted(names(&["a", "b"]));
    assert_eq!(ok, ValidationOutcome::Valid);
    assert!(matches!(wf.state, WorkflowState::Confirming { .. }));
}

#[test]
fn cancellation_deletes_nothing_and_exits_non_zero() {
    let mut wf = Workflow::new(ValidatorConfig::default());
    wf.on_buckets_listed(names(&["my-logs-2023", "temp-cache", "other"]));
    let r = wf.on_selection_submitted(names(&["my-logs-2023", "temp-cache"]));
    assert_eq!(r, ValidationOutcome::Valid);
    // The confirmation prompt defaults to "no"; the default answer cancels.
    let exec = wf.on_confirmation(false);
    // No executor exists, so no empty or delete operation can be attempted.
    assert!(exec.is_none());
    assert!(matches!(wf.state, WorkflowState::Cancelled));
    assert_ne!(wf.exit_code(), 0);
}

#[test]
fn end_to_end_run_deletes_selection_in_order() {
    let mut wf = Workflow::new(ValidatorConfig::default());
    wf.on_buckets_listed(names(&["a", "b", "backup-prod", "c"]));

    // Selecting the protected bucket is refused with the protected-name
    // message, and the run stays in selection.
    let refused = wf.check_selection(&names(&["backup-prod"]));
    match refused {
        ValidationOutcome::Invalid(e) => {
            assert_eq!(e.message(), "Cannot delete buckets with protected names")
        }
        ValidationOutcome::Valid => panic!("protected selection passed validation"),
    }
    let still = wf.on_selection_submitted(names(&["backup-prod"]));
    assert!(matches!(still, ValidationOutcome::Invalid(_)));
    assert!(matches!(wf.state, WorkflowState::Selecting { .. }));

    // A clean selection passes, is confirmed, and every bucket is emptied
    // and deleted in selection order.
    let ok = wf.on_selection_submitted(names(&["a", "b", "c"]));
    assert_eq!(ok, ValidationOutcome::Valid);
    let mut exec = wf.on_confirmation(true).expect("confirmed run yields an executor");

    let mut touched: Vec<(String, &'static str)> = Vec::new();
    loop {
        match exec.next_action() {
            ExecAction::ListVersions { bucket } => {
                touched.push((bucket, "empty"));
                exec.on_versions_listed(Vec::new());
            }
            ExecAction::DeleteObject { .. } => exec.on_object_deleted(),
            ExecAction::DeleteBucket { bucket } => {
                touched.push((bucket, "delete"));
                exec.on_bucket_deleted();
            }
            ExecAction::Finished => break,
        }
    }
    assert_eq!(
        touched,
        vec![
            ("a".to_string(), "empty"),
            ("a".to_string(), "delete"),
            ("b".to_string(), "empty"),
            ("b".to_string(), "delete"),
            ("c".to_string(), "empty"),
            ("c".to_string(), "delete"),
        ]
    );
    let outcomes = exec.into_outcomes();
    assert_eq!(outcomes, vec![RunOutcome::Success; 3]);

    wf.on_batch_finished(outcomes);
    assert!(matches!(wf.state, WorkflowState::Done { .. }));
    assert_eq!(wf.exit_code(), 0);
}

#[test]
fn partial_failure_still_completes_with_exit_zero() {
    let mut wf = Workflow::new(ValidatorConfig::default());
    wf.on_buckets_listed(names(&["a", "b"]));
    wf.on_selection_submitted(names(&["a", "b"]));
    let mut exec = wf.on_confirmation(true).expect("executor");
    exec.on_list_failed("denied".to_string());
    exec.on_versions_listed(Vec::new());
    exec.on_bucket_deleted();
    assert!(exec.is_finished());
    wf.on_batch_finished(exec.into_outcomes());
    assert_eq!(wf.exit_code(), 0);
}

#[test]
fn live_validation_uses_injected_limits() {
    let cfg = ValidatorConfig {
        max_buckets: 2,
        protected_names: names(&["x"]),
    };
    let wf = Workflow::new(cfg);
    assert_eq!(wf.check_selection(&names(&["a", "b"])), ValidationOutcome::Valid);
    assert_eq!(
        wf.check_selection(&names(&["a", "b", "c"])),
        ValidationOutcome::Invalid(ValidationError::TooMany { max: 2, actual: 3 })
    );
}
