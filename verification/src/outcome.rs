//! How the clone of one repository ended, and the report over all of them.

use vstd::prelude::*;
use crate::repository::{RepositoryRef, RepositoryRefView};

verus! {

/// How one clone ended.
#[derive(Debug, PartialEq, Eq)]
pub enum CloneStatus {
    Success,
    Failure { reason: String },
}

/// What a `CloneStatus` holds.
pub enum CloneStatusView {
    Success,
    Failure { reason: Seq<char> },
}

impl View for CloneStatus {
    type V = CloneStatusView;

    open spec fn view(&self) -> CloneStatusView {
        match *self {
            CloneStatus::Success => CloneStatusView::Success,
            CloneStatus::Failure { reason } => CloneStatusView::Failure { reason: reason@ },
        }
    }
}

impl Clone for CloneStatus {
    fn clone(&self) -> (r: Self)
        ensures
            r@ == self@,
    {
        match self {
            CloneStatus::Success => CloneStatus::Success,
            CloneStatus::Failure { reason } => CloneStatus::Failure { reason: reason.clone() },
        }
    }
}

/// The status that the result of a clone amounts to.
pub open spec fn status_of(result: Result<(), Seq<char>>) -> CloneStatusView {
    match result {
        Ok(_) => CloneStatusView::Success,
        Err(reason) => CloneStatusView::Failure { reason },
    }
}

/// The view of the result of a clone: done, or the reason why not.
pub open spec fn clone_result_view(result: Result<(), String>) -> Result<(), Seq<char>> {
    match result {
        Ok(_) => Ok(()),
        Err(reason) => Err(reason@),
    }
}

impl CloneStatus {
    /// Turns the result of a clone into its status. A failure is kept as the
    /// status of that clone; it is an outcome, not an error of the run.
    pub fn from_result(result: Result<(), String>) -> (status: CloneStatus)
        ensures
            status@ == status_of(clone_result_view(result)),
    {
        match result {
            Ok(_) => CloneStatus::Success,
            Err(reason) => CloneStatus::Failure { reason },
        }
    }

    /// Whether the clone succeeded.
    pub fn is_success(&self) -> (r: bool)
        ensures
            r == (self@ is Success),
    {
        match self {
            CloneStatus::Success => true,
            CloneStatus::Failure { .. } => false,
        }
    }
}

/// The outcome of cloning one repository.
#[derive(Debug, PartialEq, Eq)]
pub struct CloneOutcome {
    pub repo: RepositoryRef,
    pub status: CloneStatus,
}

/// What a `CloneOutcome` holds.
pub struct CloneOutcomeView {
    pub repo: RepositoryRefView,
    pub status: CloneStatusView,
}

impl View for CloneOutcome {
    type V = CloneOutcomeView;

    open spec fn view(&self) -> CloneOutcomeView {
        CloneOutcomeView { repo: self.repo@, status: self.status@ }
    }
}

/// The views of `outcomes`, in order.
pub open spec fn outcome_views(outcomes: Seq<CloneOutcome>) -> Seq<CloneOutcomeView> {
    outcomes.map_values(|o: CloneOutcome| o@)
}

/// How many of `outcomes` are failures.
pub open spec fn failures(outcomes: Seq<CloneOutcomeView>) -> nat
    decreases outcomes.len(),
{
    if outcomes.len() == 0 {
        0
    } else {
        failures(outcomes.drop_last()) + if outcomes.last().status is Failure {
            1nat
        } else {
            0nat
        }
    }
}

/// How many of `outcomes` are successes.
pub open spec fn successes(outcomes: Seq<CloneOutcomeView>) -> nat
    decreases outcomes.len(),
{
    if outcomes.len() == 0 {
        0
    } else {
        successes(outcomes.drop_last()) + if outcomes.last().status is Success {
            1nat
        } else {
            0nat
        }
    }
}

/// Every outcome is a success or a failure, and never both.
pub proof fn lemma_tally_is_total(outcomes: Seq<CloneOutcomeView>)
    ensures
        successes(outcomes) + failures(outcomes) == outcomes.len(),
    decreases outcomes.len(),
{
    if outcomes.len() > 0 {
        lemma_tally_is_total(outcomes.drop_last());
    }
}

/// The summary of a report: how many clones succeeded and how many failed.
#[derive(Debug, PartialEq, Eq, Clone, Copy)]
pub struct Tally {
    pub succeeded: usize,
    pub failed: usize,
}

/// Counts the successes and the failures of a report.
pub fn tally(outcomes: &Vec<CloneOutcome>) -> (t: Tally)
    ensures
        t.succeeded == successes(outcome_views(outcomes@)),
        t.failed == failures(outcome_views(outcomes@)),
        t.succeeded + t.failed == outcomes.len(),
{
    let ghost views = outcome_views(outcomes@);
    let mut succeeded: usize = 0;
    let mut failed: usize = 0;
    let mut i: usize = 0;
    while i < outcomes.len()
        invariant
            0 <= i <= outcomes.len(),
            views == outcome_views(outcomes@),
            succeeded == successes(views.take(i as int)),
            failed == failures(views.take(i as int)),
            succeeded + failed == i,
        decreases outcomes.len() - i,
    {
        proof {
            assert(views.take(i + 1).drop_last() =~= views.take(i as int));
            assert(views.take(i + 1).last() == outcomes@[i as int]@);
        }
        if outcomes[i].status.is_success() {
            succeeded += 1;
        } else {
            failed += 1;
        }
        i += 1;
    }
    proof {
        assert(views.take(i as int) =~= views);
    }
    Tally { succeeded, failed }
}

} // verus!
