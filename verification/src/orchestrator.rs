//! Cloning every repository of an enumeration under one destination root.
//!
//! The caller probes the file system, creates the root and runs the clones,
//! one independent task for each repository. The types of this module fix
//! the order: a `ClonePlan` becomes a `VacantDestination` only once the root
//! was found not to exist, that becomes a `CloneBatch` only once the root was
//! created, and only a `CloneBatch` hands out tasks. Each task ends in its
//! own slot of the batch, so the report keeps the order of the references
//! whatever the order in which the tasks finish, and a failed clone touches
//! no slot but its own.

use vstd::prelude::*;
use crate::outcome::{
    clone_result_view, failures, outcome_views, status_of, successes, CloneOutcome,
    CloneOutcomeView, CloneStatus, CloneStatusView,
};
use crate::repository::{ref_views, RepositoryRef, RepositoryRefView};

verus! {

/// Why cloning could not begin.
#[derive(Debug, PartialEq, Eq)]
pub enum CloneSetupError {
    /// The destination root exists already. Nothing was written.
    DestinationExists,
    /// The destination root could not be created.
    DestinationCreate { reason: String },
}

/// What a `CloneSetupError` holds.
pub enum CloneSetupErrorView {
    DestinationExists,
    DestinationCreate { reason: Seq<char> },
}

impl View for CloneSetupError {
    type V = CloneSetupErrorView;

    open spec fn view(&self) -> CloneSetupErrorView {
        match *self {
            CloneSetupError::DestinationExists => CloneSetupErrorView::DestinationExists,
            CloneSetupError::DestinationCreate { reason } => CloneSetupErrorView::DestinationCreate {
                reason: reason@,
            },
        }
    }
}

/// One clone to run: which reference it is for, where to clone from and
/// where to.
#[derive(Debug, PartialEq, Eq)]
pub struct CloneTask {
    pub index: usize,
    pub url: String,
    pub destination: String,
}

/// What a `CloneTask` holds.
pub struct CloneTaskView {
    pub index: nat,
    pub url: Seq<char>,
    pub destination: Seq<char>,
}

impl View for CloneTask {
    type V = CloneTaskView;

    open spec fn view(&self) -> CloneTaskView {
        CloneTaskView { index: self.index as nat, url: self.url@, destination: self.destination@ }
    }
}

/// The views of `tasks`, in order.
pub open spec fn task_views(tasks: Seq<CloneTask>) -> Seq<CloneTaskView> {
    tasks.map_values(|t: CloneTask| t@)
}

/// The directory that the repository `name` is cloned to: the child of that
/// name of the destination root.
pub open spec fn destination_path(root: Seq<char>, name: Seq<char>) -> Seq<char> {
    root + "/"@ + name
}

/// What is to be cloned, and under which root.
pub struct PlanView {
    pub refs: Seq<RepositoryRefView>,
    pub root: Seq<char>,
}

/// The state of a batch of clones: the plan, and for each reference the
/// status of its clone once that has ended.
pub struct BatchView {
    pub refs: Seq<RepositoryRefView>,
    pub root: Seq<char>,
    pub statuses: Seq<Option<CloneStatusView>>,
}

/// How many of `statuses` are there.
pub open spec fn filled(statuses: Seq<Option<CloneStatusView>>) -> nat
    decreases statuses.len(),
{
    if statuses.len() == 0 {
        0
    } else {
        filled(statuses.drop_last()) + if statuses.last() is Some {
            1nat
        } else {
            0nat
        }
    }
}

impl BatchView {
    /// There is one slot for each reference.
    pub open spec fn well_formed(self) -> bool {
        self.statuses.len() == self.refs.len()
    }

    /// The batch of a plan before any clone has ended.
    pub open spec fn fresh(plan: PlanView) -> BatchView {
        BatchView {
            refs: plan.refs,
            root: plan.root,
            statuses: Seq::new(plan.refs.len(), |i: int| None::<CloneStatusView>),
        }
    }

    /// The task for the reference at `index`.
    pub open spec fn task(self, index: int) -> CloneTaskView {
        CloneTaskView {
            index: index as nat,
            url: self.refs[index].clone_url,
            destination: destination_path(self.root, self.refs[index].name),
        }
    }

    /// The tasks of the batch: one for each reference, in order.
    pub open spec fn tasks(self) -> Seq<CloneTaskView> {
        Seq::new(self.refs.len(), |i: int| self.task(i))
    }

    /// Whether a result for `index` is taken: the slot exists and is empty.
    pub open spec fn accepts(self, index: int) -> bool {
        0 <= index < self.statuses.len() && self.statuses[index] is None
    }

    /// The batch after a result for `index` came in. A result that is not
    /// taken changes nothing.
    pub open spec fn record(self, index: int, status: CloneStatusView) -> BatchView {
        if self.accepts(index) {
            BatchView { statuses: self.statuses.update(index, Some(status)), ..self }
        } else {
            self
        }
    }

    /// How many clones have ended.
    pub open spec fn completed(self) -> nat {
        filled(self.statuses)
    }

    /// Whether every clone has ended.
    pub open spec fn is_complete(self) -> bool {
        forall|i: int| 0 <= i < self.statuses.len() ==> (#[trigger] self.statuses[i]) is Some
    }

    /// The report of a complete batch: for each reference, in order, the
    /// status that was recorded for it.
    pub open spec fn report(self) -> Seq<CloneOutcomeView>
        recommends
            self.well_formed(),
            self.is_complete(),
    {
        Seq::new(
            self.refs.len(),
            |i: int| CloneOutcomeView { repo: self.refs[i], status: self.statuses[i]->0 },
        )
    }
}

/// No more slots are filled than there are, and all are filled exactly when
/// none is empty.
pub proof fn lemma_filled_bounds(statuses: Seq<Option<CloneStatusView>>)
    ensures
        filled(statuses) <= statuses.len(),
        filled(statuses) == statuses.len() <==> forall|i: int|
            0 <= i < statuses.len() ==> (#[trigger] statuses[i]) is Some,
    decreases statuses.len(),
{
    if statuses.len() > 0 {
        let front = statuses.drop_last();
        lemma_filled_bounds(front);
        assert(forall|i: int| 0 <= i < front.len() ==> front[i] == statuses[i]);
        if filled(statuses) == statuses.len() {
            assert(statuses.last() is Some);
            assert(filled(front) == front.len());
        }
        if forall|i: int| 0 <= i < statuses.len() ==> (#[trigger] statuses[i]) is Some {
            assert(statuses.last() == statuses[statuses.len() - 1]);
            assert forall|i: int| 0 <= i < front.len() implies (#[trigger] front[i]) is Some by {
                assert(statuses[i] is Some);
            }
        }
    }
}

/// Filling an empty slot raises the count of filled slots by one.
pub proof fn lemma_filled_update(
    statuses: Seq<Option<CloneStatusView>>,
    index: int,
    status: CloneStatusView,
)
    requires
        0 <= index < statuses.len(),
        statuses[index] is None,
    ensures
        filled(statuses.update(index, Some(status))) == filled(statuses) + 1,
    decreases statuses.len(),
{
    let updated = statuses.update(index, Some(status));
    if index == statuses.len() - 1 {
        assert(updated.drop_last() =~= statuses.drop_last());
    } else {
        lemma_filled_update(statuses.drop_last(), index, status);
        assert(updated.drop_last() =~= statuses.drop_last().update(index, Some(status)));
    }
}

/// What is to be cloned and where to, before anything is known of the
/// destination.
#[derive(Debug)]
pub struct ClonePlan {
    refs: Vec<RepositoryRef>,
    root: String,
}

/// A plan whose destination root was found not to exist.
#[derive(Debug)]
pub struct VacantDestination {
    refs: Vec<RepositoryRef>,
    root: String,
}

/// The slot of one reference in a batch: the reference, and the status of
/// its clone once that has ended.
#[derive(Debug)]
struct Slot {
    repo: RepositoryRef,
    status: Option<CloneStatus>,
}

/// A plan whose destination root was created: its clones may run. It holds
/// one slot for each reference, in the order of the references.
#[derive(Debug)]
pub struct CloneBatch {
    root: String,
    slots: Vec<Slot>,
}

/// The view of an optional status.
pub open spec fn slot_view(slot: Option<CloneStatus>) -> Option<CloneStatusView> {
    match slot {
        Some(status) => Some(status@),
        None => None,
    }
}

impl View for ClonePlan {
    type V = PlanView;

    closed spec fn view(&self) -> PlanView {
        PlanView { refs: ref_views(self.refs@), root: self.root@ }
    }
}

impl View for VacantDestination {
    type V = PlanView;

    closed spec fn view(&self) -> PlanView {
        PlanView { refs: ref_views(self.refs@), root: self.root@ }
    }
}

impl View for CloneBatch {
    type V = BatchView;

    closed spec fn view(&self) -> BatchView {
        BatchView {
            refs: self.slots@.map_values(|s: Slot| s.repo@),
            root: self.root@,
            statuses: self.slots@.map_values(|s: Slot| slot_view(s.status)),
        }
    }
}

impl ClonePlan {
    /// Plans the clone of `refs` under `root`.
    pub fn new(refs: Vec<RepositoryRef>, root: String) -> (plan: ClonePlan)
        ensures
            plan@ == (PlanView { refs: ref_views(refs@), root: root@ }),
    {
        ClonePlan { refs, root }
    }

    /// The destination root, to be probed.
    pub fn root(&self) -> (root: &str)
        ensures
            root@ == self@.root,
    {
        self.root.as_str()
    }

    /// Takes in whether the destination root exists.
    ///
    /// A root that exists already is an error, reported before anything is
    /// created and before any clone is planned. Otherwise the root is the
    /// caller's to create.
    pub fn probed(self, exists: bool) -> (r: Result<VacantDestination, CloneSetupError>)
        ensures
            exists ==> r is Err && r->Err_0@ == CloneSetupErrorView::DestinationExists,
            !exists ==> r is Ok && r->Ok_0@ == self@,
    {
        if exists {
            Err(CloneSetupError::DestinationExists)
        } else {
            Ok(VacantDestination { refs: self.refs, root: self.root })
        }
    }
}

impl VacantDestination {
    /// The destination root, to be created with its parents.
    pub fn root(&self) -> (root: &str)
        ensures
            root@ == self@.root,
    {
        self.root.as_str()
    }

    /// Takes in how the creation of the destination root ended.
    ///
    /// A root that could not be created is an error, reported before any
    /// clone is planned. Otherwise the batch starts with every slot empty.
    pub fn created(self, creation: Result<(), String>) -> (r: Result<CloneBatch, CloneSetupError>)
        ensures
            match creation {
                Ok(_) => r is Ok && r->Ok_0@ == BatchView::fresh(self@),
                Err(reason) => r is Err && r->Err_0@ == (CloneSetupErrorView::DestinationCreate {
                    reason: reason@,
                }),
            },
    {
        match creation {
            Err(reason) => Err(CloneSetupError::DestinationCreate { reason }),
            Ok(_) => {
                let mut slots: Vec<Slot> = Vec::new();
                let mut i: usize = 0;
                while i < self.refs.len()
                    invariant
                        0 <= i <= self.refs.len(),
                        slots.len() == i,
                        forall|j: int|
                            0 <= j < i ==> (#[trigger] slots@[j]).repo@ == self.refs@[j]@
                                && slots@[j].status is None,
                    decreases self.refs.len() - i,
                {
                    slots.push(Slot { repo: self.refs[i].clone(), status: None });
                    i += 1;
                }
                let batch = CloneBatch { root: self.root, slots };
                proof {
                    assert(batch@.refs =~= self@.refs);
                    assert(batch@.statuses =~= BatchView::fresh(self@).statuses);
                }
                Ok(batch)
            },
        }
    }
}

/// Builds the path of the directory that `name` is cloned to under `root`.
pub fn build_destination(root: &str, name: &str) -> (path: String)
    ensures
        path@ == destination_path(root@, name@),
{
    let mut path = String::from_str(root);
    path.append("/");
    path.append(name);
    path
}

impl CloneBatch {
    /// How many repositories the batch clones. There is one slot for each.
    pub fn len(&self) -> (n: usize)
        ensures
            n == self@.refs.len(),
            self@.well_formed(),
    {
        self.slots.len()
    }

    /// The clones to run: one for each reference, in the order of the
    /// references, each into its own directory under the root.
    pub fn tasks(&self) -> (tasks: Vec<CloneTask>)
        ensures
            task_views(tasks@) == self@.tasks(),
    {
        let mut tasks: Vec<CloneTask> = Vec::new();
        let mut i: usize = 0;
        while i < self.slots.len()
            invariant
                0 <= i <= self.slots.len(),
                tasks.len() == i,
                forall|j: int| 0 <= j < i ==> (#[trigger] tasks@[j])@ == self@.task(j),
            decreases self.slots.len() - i,
        {
            let repo = &self.slots[i].repo;
            let task = CloneTask {
                index: i,
                url: repo.clone_url.clone(),
                destination: build_destination(self.root.as_str(), repo.name.as_str()),
            };
            tasks.push(task);
            i += 1;
        }
        proof {
            assert(task_views(tasks@) =~= self@.tasks());
        }
        tasks
    }

    /// Records how the clone for `index` ended, and says whether the result
    /// was taken.
    ///
    /// A result is taken once for each reference: one for an index that the
    /// batch does not have, or for a slot that is filled, changes nothing.
    /// A result that is taken fills its own slot and no other, and raises
    /// the count of ended clones by one.
    pub fn record(&mut self, index: usize, result: Result<(), String>) -> (taken: bool)
        ensures
            taken == old(self)@.accepts(index as int),
            final(self)@ == old(self)@.record(index as int, status_of(clone_result_view(result))),
            final(self)@.completed() == old(self)@.completed() + if taken {
                1nat
            } else {
                0nat
            },
    {
        if index >= self.slots.len() {
            return false;
        }
        if self.slots[index].status.is_some() {
            return false;
        }
        let status = CloneStatus::from_result(result);
        let repo = self.slots[index].repo.clone();
        let ghost before = self@;
        self.slots.set(index, Slot { repo, status: Some(status) });
        proof {
            assert(self@.refs =~= before.refs);
            assert(self@.statuses =~= before.statuses.update(index as int, Some(status@)));
            lemma_filled_update(before.statuses, index as int, status@);
        }
        true
    }

    /// How many clones have ended, with success or without.
    pub fn completed(&self) -> (n: usize)
        ensures
            n == self@.completed(),
            n <= self@.statuses.len(),
    {
        let ghost views = self@.statuses;
        let mut n: usize = 0;
        let mut i: usize = 0;
        while i < self.slots.len()
            invariant
                0 <= i <= self.slots.len(),
                views == self@.statuses,
                n == filled(views.take(i as int)),
                n <= i,
            decreases self.slots.len() - i,
        {
            proof {
                assert(views.take(i + 1).drop_last() =~= views.take(i as int));
                assert(views.take(i + 1).last() == slot_view(self.slots@[i as int].status));
            }
            if self.slots[i].status.is_some() {
                n += 1;
            }
            i += 1;
        }
        proof {
            assert(views.take(i as int) =~= views);
        }
        n
    }

    /// Whether every clone has ended: whether as many have ended as there
    /// are repositories.
    pub fn is_complete(&self) -> (r: bool)
        ensures
            r == self@.is_complete(),
            r == (self@.completed() == self@.refs.len()),
    {
        proof {
            lemma_filled_bounds(self@.statuses);
        }
        self.completed() == self.slots.len()
    }

    /// Ends the batch and gives the report, once every clone has ended.
    ///
    /// While one clone has not ended there is no report: the batch is handed
    /// back unchanged. The report has one outcome for each reference, in the
    /// order of the references, with the status that was recorded for it.
    pub fn finish(self) -> (r: Result<Vec<CloneOutcome>, CloneBatch>)
        ensures
            self@.well_formed(),
            match r {
                Ok(outcomes) => self@.is_complete() && outcome_views(outcomes@) == self@.report(),
                Err(batch) => !self@.is_complete() && batch@ == self@,
            },
    {
        let mut outcomes: Vec<CloneOutcome> = Vec::new();
        let mut i: usize = 0;
        while i < self.slots.len()
            invariant
                0 <= i <= self.slots.len(),
                outcomes.len() == i,
                forall|j: int| 0 <= j < i ==> (#[trigger] self@.statuses[j]) is Some,
                forall|j: int| 0 <= j < i ==> (#[trigger] outcomes@[j])@ == self@.report()[j],
            decreases self.slots.len() - i,
        {
            let slot = &self.slots[i];
            match &slot.status {
                None => {
                    proof {
                        assert(self@.statuses[i as int] is None);
                    }
                    return Err(self);
                },
                Some(status) => {
                    let outcome = CloneOutcome { repo: slot.repo.clone(), status: status.clone() };
                    outcomes.push(outcome);
                },
            }
            i += 1;
        }
        proof {
            assert(outcome_views(outcomes@) =~= self@.report());
        }
        Ok(outcomes)
    }
}

/// A failed clone is isolated: where the clone of exactly one reference
/// failed and every other succeeded, the batch is complete, the report has
/// one outcome for each reference in order, the one failure stands at the
/// place of its own reference, every other outcome is a success, and the
/// report counts one failure and a success for each of the others.
pub proof fn lemma_single_failure_is_isolated(batch: BatchView, failed: int)
    requires
        batch.well_formed(),
        0 <= failed < batch.refs.len(),
        batch.statuses[failed] is Some,
        batch.statuses[failed]->0 is Failure,
        forall|i: int|
            0 <= i < batch.refs.len() && i != failed ==> (#[trigger] batch.statuses[i]) == Some(
                CloneStatusView::Success,
            ),
    ensures
        batch.is_complete(),
        batch.report().len() == batch.refs.len(),
        forall|i: int|
            0 <= i < batch.refs.len() ==> (#[trigger] batch.report()[i]).repo == batch.refs[i],
        batch.report()[failed].status == batch.statuses[failed]->0,
        forall|i: int|
            0 <= i < batch.refs.len() && i != failed ==> (#[trigger] batch.report()[i]).status
                is Success,
        failures(batch.report()) == 1,
        successes(batch.report()) == batch.refs.len() - 1,
{
    assert forall|i: int| 0 <= i < batch.statuses.len() implies (#[trigger] batch.statuses[i])
        is Some by {
        if i != failed {
            assert(batch.statuses[i] == Some(CloneStatusView::Success));
        }
    }
    let report = batch.report();
    assert forall|i: int| 0 <= i < report.len() && i != failed implies (#[trigger] report[i]).status
        is Success by {
        assert(batch.statuses[i] == Some(CloneStatusView::Success));
    }
    lemma_failures_in_prefix(report, failed, report.len() as int);
    assert(report.take(report.len() as int) =~= report);
    crate::outcome::lemma_tally_is_total(report);
}

/// Among the first `n` outcomes of a report whose only failure stands at
/// `failed`, there is one failure if `n` reaches past it and none otherwise.
proof fn lemma_failures_in_prefix(report: Seq<CloneOutcomeView>, failed: int, n: int)
    requires
        0 <= failed < report.len(),
        0 <= n <= report.len(),
        report[failed].status is Failure,
        forall|i: int| 0 <= i < report.len() && i != failed ==> (#[trigger] report[i]).status
            is Success,
    ensures
        failures(report.take(n)) == if failed < n {
            1nat
        } else {
            0nat
        },
    decreases n,
{
    if n > 0 {
        lemma_failures_in_prefix(report, failed, n - 1);
        assert(report.take(n).drop_last() =~= report.take(n - 1));
        assert(report.take(n).last() == report[n - 1]);
    }
}

} // verus!
