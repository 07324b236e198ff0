//! The interactive workflow controller: enumerate, select, confirm, execute,
//! report. The controller is a state machine over plain values; the
//! surrounding binary performs the backend calls and terminal prompts and
//! reports their results back. The verified transitions guarantee that an
//! enumeration failure ends the run before any prompt, that a selection can
//! only be confirmed after the validator chain has approved it, that a
//! declined confirmation ends the run with no executor ever created, and
//! that only a completed run exits with status zero.

use vstd::prelude::*;
use crate::executor::{BatchExecutor, RunOutcome};
use crate::validate::{spec_validate, validate, ValidationError, ValidationOutcome, ValidatorConfig};

verus! {

/// Every name of `sel` appears in `avail`: the selection is drawn from the
/// enumerated set.
pub open spec fn spec_drawn_from(sel: Seq<Seq<char>>, avail: Seq<Seq<char>>) -> bool {
    forall|i: int| 0 <= i < sel.len() ==> avail.contains(sel[i])
}

/// Is every name of `sel` one of the names in `avail`?
fn is_drawn_from(sel: &Vec<String>, avail: &Vec<String>) -> (r: bool)
    ensures
        r == spec_drawn_from(sel.deep_view(), avail.deep_view()),
{
    let mut i: usize = 0;
    while i < sel.len()
        invariant
            i <= sel.len(),
            forall|t: int| 0 <= t < i ==> avail.deep_view().contains(sel.deep_view()[t]),
        decreases sel.len() - i,
    {
        let mut found: bool = false;
        let mut j: usize = 0;
        while j < avail.len()
            invariant
                j <= avail.len(),
                i < sel.len(),
                found ==> avail.deep_view().contains(sel.deep_view()[i as int]),
                !found ==> forall|t: int| 0 <= t < j ==> avail.deep_view()[t]
                    != sel.deep_view()[i as int],
            decreases avail.len() - j,
    {
            if !found && sel[i].eq(&avail[j]) {
                found = true;
                proof {
                    assert(avail.deep_view()[j as int] == sel.deep_view()[i as int]);
                }
            }
            proof {
                assert(avail.deep_view()[j as int] == avail@[j as int]@);
                assert(sel.deep_view()[i as int] == sel@[i as int]@);
            }
            j += 1;
        }
        if !found {
            proof {
                assert(!avail.deep_view().contains(sel.deep_view()[i as int]));
            }
            return false;
        }
        i += 1;
    }
    true
}

/// Where the run stands. There are no backward transitions; `Selecting`
/// re-solicits internally while the in-progress selection is invalid.
#[derive(Debug)]
pub enum WorkflowState {
    /// Waiting for the bucket listing from the storage backend.
    Enumerating,
    /// Presenting `available` for multi-selection.
    Selecting { available: Vec<String> },
    /// A validated selection awaits the operator's yes/no confirmation.
    Confirming { selection: Vec<String> },
    /// The confirmed selection is being emptied and deleted.
    Executing,
    /// The batch is done; per-bucket outcomes are kept for the final report.
    Done { outcomes: Vec<RunOutcome> },
    /// Enumerating the buckets failed; nothing was there to select from.
    Failed { reason: String },
    /// The operator declined the confirmation; nothing was deleted.
    Cancelled,
}

/// The workflow controller: the configured limits plus the current state.
pub struct Workflow {
    pub config: ValidatorConfig,
    pub state: WorkflowState,
}

/// A state the run ends in.
pub open spec fn spec_is_terminal(s: WorkflowState) -> bool {
    s is Done || s is Failed || s is Cancelled
}

/// The process exit status a finished run reports: zero only for a completed
/// batch, even one with per-bucket failures; an aborted or cancelled run
/// exits non-zero.
pub open spec fn spec_exit_code(s: WorkflowState) -> int {
    if s is Done {
        0
    } else {
        1
    }
}

impl Workflow {
    /// A fresh run, about to enumerate the buckets.
    pub fn new(config: ValidatorConfig) -> (w: Workflow)
        ensures
            w.state is Enumerating,
            w.config == config,
    {
        Workflow { config, state: WorkflowState::Enumerating }
    }

    /// The backend listed the buckets: present them for selection.
    pub fn on_buckets_listed(&mut self, buckets: Vec<String>)
        requires
            old(self).state is Enumerating,
        ensures
            final(self).state == (WorkflowState::Selecting { available: buckets }),
            final(self).config == old(self).config,
    {
        self.state = WorkflowState::Selecting { available: buckets };
    }

    /// Listing the buckets failed: the run is over before any prompt is
    /// shown, and it will exit non-zero.
    pub fn on_listing_failed(&mut self, reason: String)
        requires
            old(self).state is Enumerating,
        ensures
            final(self).state == (WorkflowState::Failed { reason }),
            spec_is_terminal(final(self).state),
            spec_exit_code(final(self).state) != 0,
            final(self).config == old(self).config,
    {
        self.state = WorkflowState::Failed { reason };
    }

    /// The live check the selection prompt runs on every change to the
    /// in-progress selection: the full validator chain under this run's
    /// configured limits.
    pub fn check_selection(&self, selection: &Vec<String>) -> (r: ValidationOutcome)
        ensures
            r == spec_validate(
                selection.deep_view(),
                self.config.protected_names.deep_view(),
                self.config.max_buckets as int,
            ),
    {
        validate(selection, &self.config)
    }

    /// The operator submitted a selection. It is validated once more, and it
    /// must be drawn from the enumerated set being presented: only then does
    /// the run move to confirmation; otherwise it stays selecting, to be
    /// re-solicited. A selection can thus never name a bucket the backend
    /// did not report.
    pub fn on_selection_submitted(&mut self, selection: Vec<String>) -> (r: ValidationOutcome)
        requires
            old(self).state is Selecting,
        ensures
            ({
                let chain = spec_validate(
                    selection.deep_view(),
                    old(self).config.protected_names.deep_view(),
                    old(self).config.max_buckets as int,
                );
                let drawn = spec_drawn_from(
                    selection.deep_view(),
                    old(self).state->Selecting_available.deep_view(),
                );
                &&& r == (if !(chain is Valid) {
                    chain
                } else if !drawn {
                    ValidationOutcome::Invalid(ValidationError::NotEnumerated)
                } else {
                    ValidationOutcome::Valid
                })
                &&& r is Valid ==> final(self).state == (WorkflowState::Confirming { selection })
                    && drawn
                &&& !(r is Valid) ==> final(self).state == old(self).state
            }),
            final(self).config == old(self).config,
    {
        let outcome = validate(&selection, &self.config);
        if !matches!(outcome, ValidationOutcome::Valid) {
            return outcome;
        }
        let drawn = match &self.state {
            WorkflowState::Selecting { available } => is_drawn_from(&selection, available),
            _ => false,
        };
        if !drawn {
            return ValidationOutcome::Invalid(ValidationError::NotEnumerated);
        }
        self.state = WorkflowState::Confirming { selection };
        ValidationOutcome::Valid
    }

    /// The operator answered the destructive-action confirmation. Any
    /// non-affirmative answer cancels the run: no executor is handed out, so
    /// no empty or delete operation can be attempted, and the run exits
    /// non-zero. An affirmative answer yields a fresh executor over exactly
    /// the confirmed selection.
    pub fn on_confirmation(&mut self, accepted: bool) -> (e: Option<BatchExecutor>)
        requires
            old(self).state is Confirming,
        ensures
            final(self).config == old(self).config,
            !accepted ==> {
                &&& e is None
                &&& final(self).state is Cancelled
                &&& spec_is_terminal(final(self).state)
                &&& spec_exit_code(final(self).state) != 0
            },
            accepted ==> {
                &&& final(self).state is Executing
                &&& (e matches Some(x) && {
                    &&& x.wf()
                    &&& x.buckets == old(self).state->Confirming_selection
                    &&& x.idx == 0
                    &&& x.outcomes@.len() == 0
                    &&& x.empty_attempts == 0
                    &&& x.delete_attempts == 0
                })
            },
    {
        if !accepted {
            self.state = WorkflowState::Cancelled;
            return None;
        }
        let mut prior = WorkflowState::Executing;
        core::mem::swap(&mut prior, &mut self.state);
        match prior {
            WorkflowState::Confirming { selection } => Some(BatchExecutor::new(selection)),
            _ => None,
        }
    }

    /// The batch executor finished: keep the per-bucket outcomes for the
    /// final report. The run is complete and will exit zero, whatever the
    /// individual outcomes were.
    pub fn on_batch_finished(&mut self, outcomes: Vec<RunOutcome>)
        requires
            old(self).state is Executing,
        ensures
            final(self).state == (WorkflowState::Done { outcomes }),
            spec_is_terminal(final(self).state),
            spec_exit_code(final(self).state) == 0,
            final(self).config == old(self).config,
    {
        self.state = WorkflowState::Done { outcomes };
    }

    /// The process exit status for a finished run: zero only when the batch
    /// completed.
    pub fn exit_code(&self) -> (c: i32)
        requires
            spec_is_terminal(self.state),
        ensures
            c == spec_exit_code(self.state),
    {
        match self.state {
            WorkflowState::Done { .. } => 0,
            _ => 1,
        }
    }
}

} // verus!
