//! Applying a caller-authored, ordered plan of single-file diffs.
//!
//! The plan is run in its own order and stops at the first entry that fails.
//! Nothing is rolled back: what earlier entries committed stays committed.

use vstd::prelude::*;

use crate::apply::{
    action_views, decided, decision_view, diff, ApplyDecisionView, ApplyError, ApplyErrorView,
    ApplyOptions, ApplyOptionsView, ApplyOutcome, ApplyOutcomeView, ApplyStrategy, FsAction,
    FsActionView, ReadOutcome, ReadView,
};
use crate::seqs::{find_first, is_first, lemma_find_first_none, lemma_find_first_some};

verus! {

/// One entry of a plan: a unified diff for a single file.
#[derive(Debug, Clone, PartialEq, Eq)]
pub struct ScaffoldDiff {
    pub path: String,
    pub checksum: Option<String>,
    /// Unified diff text for this one file.
    pub diff: String,
}

/// An entry of a plan, with path, checksum and diff as texts.
pub struct ScaffoldDiffView {
    pub path: Seq<char>,
    pub checksum: Option<Seq<char>>,
    pub diff: Seq<char>,
}

impl View for ScaffoldDiff {
    type V = ScaffoldDiffView;

    open spec fn view(&self) -> ScaffoldDiffView {
        ScaffoldDiffView {
            path: self.path@,
            checksum: match self.checksum {
                Some(expected) => Some(expected@),
                None => None,
            },
            diff: self.diff@,
        }
    }
}

/// An ordered list of diffs that is to be applied as given.
#[derive(Debug, Clone, PartialEq, Eq)]
pub struct ApplyPlan {
    pub diffs: Vec<ScaffoldDiff>,
}

impl Default for ApplyPlan {
    fn default() -> (plan: Self)
        ensures
            plan.diffs@.len() == 0,
    {
        ApplyPlan { diffs: Vec::new() }
    }
}

/// The entries of a plan, in plan order.
pub open spec fn entry_views(diffs: Seq<ScaffoldDiff>) -> Seq<ScaffoldDiffView> {
    Seq::new(diffs.len(), |i: int| diffs[i]@)
}

/// What the reads of a run gave, in plan order.
pub open spec fn read_views(reads: Seq<ReadOutcome>) -> Seq<ReadView> {
    Seq::new(reads.len(), |i: int| reads[i]@)
}

/// The options under which an entry is applied: its own path, diff and
/// checksum, and the strategy of the whole plan.
pub open spec fn entry_options(
    entry: ScaffoldDiffView,
    strategy: ApplyStrategy,
) -> ApplyOptionsView {
    ApplyOptionsView { path: entry.path, diff: entry.diff, strategy, checksum: entry.checksum }
}

/// The number of entries a run can attempt: each entry needs its read.
pub open spec fn attempted(entries: Seq<ScaffoldDiffView>, reads: Seq<ReadView>) -> nat {
    if entries.len() <= reads.len() {
        entries.len()
    } else {
        reads.len()
    }
}

/// What the engine decides for each entry, taken by itself, where `reads[i]`
/// is what reading the target of entry `i` gave when its turn came.
pub open spec fn decisions(
    entries: Seq<ScaffoldDiffView>,
    strategy: ApplyStrategy,
    reads: Seq<ReadView>,
) -> Seq<Result<ApplyDecisionView, ApplyErrorView>> {
    Seq::new(
        attempted(entries, reads),
        |i: int| decided(entry_options(entries[i], strategy), reads[i]),
    )
}

/// The decision is a failure.
pub open spec fn failed() -> spec_fn(Result<ApplyDecisionView, ApplyErrorView>) -> bool {
    |decision: Result<ApplyDecisionView, ApplyErrorView>| decision is Err
}

/// How a run of a plan ended.
#[derive(Debug, PartialEq, Eq)]
pub struct PlanReport {
    /// The steps of the entries that applied, entry by entry, in plan order.
    /// They are committed also where a later entry failed.
    pub committed: Vec<Vec<FsAction>>,
    /// The outcomes of all entries in plan order, or the error of the first
    /// entry that failed.
    pub result: Result<Vec<ApplyOutcome>, ApplyError>,
}

/// How a run ended: the steps committed entry by entry, and the outcomes or
/// the error.
pub struct PlanReportView {
    pub committed: Seq<Seq<FsActionView>>,
    pub result: Result<Seq<ApplyOutcomeView>, ApplyErrorView>,
}

/// The views of the outcomes of a run, in order.
pub open spec fn outcome_views(outcomes: Seq<ApplyOutcome>) -> Seq<ApplyOutcomeView> {
    Seq::new(outcomes.len(), |i: int| outcomes[i]@)
}

/// The views of the steps of a run, entry by entry.
pub open spec fn committed_views(committed: Seq<Vec<FsAction>>) -> Seq<Seq<FsActionView>> {
    Seq::new(committed.len(), |i: int| action_views(committed[i]@))
}

impl View for PlanReport {
    type V = PlanReportView;

    open spec fn view(&self) -> PlanReportView {
        PlanReportView {
            committed: committed_views(self.committed@),
            result: match self.result {
                Ok(outcomes) => Ok(outcome_views(outcomes@)),
                Err(error) => Err(error@),
            },
        }
    }
}

/// How the run of a plan ends.
///
/// The entries are taken in plan order. Up to the first entry that fails,
/// each entry's steps are committed; that entry's error ends the run, and no
/// later entry is attempted. Where none fails, the outcomes come back in plan
/// order.
pub open spec fn plan_report(
    entries: Seq<ScaffoldDiffView>,
    strategy: ApplyStrategy,
    reads: Seq<ReadView>,
) -> PlanReportView {
    let all = decisions(entries, strategy, reads);
    match find_first(all, failed()) {
        Some(k) => PlanReportView {
            committed: Seq::new(k as nat, |i: int| all[i]->Ok_0.actions),
            result: Err(all[k]->Err_0),
        },
        None => PlanReportView {
            committed: Seq::new(all.len(), |i: int| all[i]->Ok_0.actions),
            result: Ok(Seq::new(all.len(), |i: int| all[i]->Ok_0.outcome)),
        },
    }
}

/// The options under which `entry` is applied.
fn options_for(entry: &ScaffoldDiff, strategy: ApplyStrategy) -> (options: ApplyOptions)
    ensures
        options@ == entry_options(entry@, strategy),
{
    ApplyOptions {
        path: entry.path.clone(),
        diff: entry.diff.clone(),
        strategy,
        checksum: match &entry.checksum {
            Some(expected) => Some(expected.clone()),
            None => None,
        },
    }
}

/// A run of a plan in progress: the entries whose diffs applied so far, and
/// their outcomes.
///
/// The caller reads the target of the pending entry, feeds what the read
/// gave, and carries out the steps that come back before it reads the next
/// target. A failure consumes the run: no later entry can be attempted.
pub struct PlanRun<'a> {
    plan: &'a ApplyPlan,
    strategy: ApplyStrategy,
    outcomes: Vec<ApplyOutcome>,
}

/// A run in progress: the entries of the plan, its strategy, and what has been
/// applied.
pub struct PlanRunView {
    pub entries: Seq<ScaffoldDiffView>,
    pub strategy: ApplyStrategy,
    /// The outcomes of the entries applied so far, in plan order.
    pub outcomes: Seq<ApplyOutcomeView>,
}

impl<'a> View for PlanRun<'a> {
    type V = PlanRunView;

    closed spec fn view(&self) -> PlanRunView {
        PlanRunView {
            entries: entry_views(self.plan.diffs@),
            strategy: self.strategy,
            outcomes: outcome_views(self.outcomes@),
        }
    }
}

/// What feeding `read` to a run makes of it: nothing where no entry is
/// pending; otherwise what the engine decides for the pending entry, with
/// its outcome added to the run where it applied.
pub open spec fn fed(run: PlanRunView, read: ReadView) -> Result<
    (PlanRunView, Seq<FsActionView>),
    ApplyErrorView,
> {
    if run.outcomes.len() >= run.entries.len() {
        Ok((run, Seq::empty()))
    } else {
        match decided(entry_options(run.entries[run.outcomes.len() as int], run.strategy), read) {
            Ok(decision) => Ok(
                (
                    PlanRunView { outcomes: run.outcomes.push(decision.outcome), ..run },
                    decision.actions,
                ),
            ),
            Err(error) => Err(error),
        }
    }
}

impl<'a> PlanRun<'a> {
    /// A run of `plan` under `strategy` in which no entry has been applied.
    pub fn start(plan: &'a ApplyPlan, strategy: ApplyStrategy) -> (run: Self)
        ensures
            run@ == (PlanRunView {
                entries: entry_views(plan.diffs@),
                strategy,
                outcomes: Seq::empty(),
            }),
    {
        let run = PlanRun { plan, strategy, outcomes: Vec::new() };
        assert(run@.outcomes =~= Seq::empty());
        run
    }

    /// The entry whose turn it is: the first that has not been applied. None
    /// where all have been.
    pub fn pending(&self) -> (entry: Option<&'a ScaffoldDiff>)
        ensures
            match entry {
                Some(next) => self@.outcomes.len() < self@.entries.len() && next@
                    == self@.entries[self@.outcomes.len() as int],
                None => self@.outcomes.len() >= self@.entries.len(),
            },
    {
        if self.outcomes.len() < self.plan.diffs.len() {
            Some(&self.plan.diffs[self.outcomes.len()])
        } else {
            None
        }
    }

    /// Applies the pending entry to what reading its target gave. On success
    /// the run moves on by one entry and the steps that commit the entry come
    /// back; on failure only the error is left.
    pub fn feed(self, read: ReadOutcome) -> (moved: Result<
        (PlanRun<'a>, Vec<FsAction>),
        ApplyError,
    >)
        ensures
            match moved {
                Ok((run, actions)) => fed(self@, read@) == Ok::<
                    (PlanRunView, Seq<FsActionView>),
                    ApplyErrorView,
                >((run@, action_views(actions@))),
                Err(error) => fed(self@, read@) == Err::<
                    (PlanRunView, Seq<FsActionView>),
                    ApplyErrorView,
                >(error@),
            },
    {
        let PlanRun { plan, strategy, outcomes } = self;
        if outcomes.len() >= plan.diffs.len() {
            let actions: Vec<FsAction> = Vec::new();
            assert(action_views(actions@) =~= Seq::empty());
            return Ok((PlanRun { plan, strategy, outcomes }, actions));
        }
        let options = options_for(&plan.diffs[outcomes.len()], strategy);
        match diff(options, read) {
            Ok(applied) => {
                let ghost before = outcome_views(outcomes@);
                let mut outcomes = outcomes;
                outcomes.push(applied.outcome);
                assert(outcome_views(outcomes@) =~= before.push(applied.outcome@));
                Ok((PlanRun { plan, strategy, outcomes }, applied.actions))
            },
            Err(error) => Err(error),
        }
    }

    /// The outcomes of the entries applied so far, in plan order.
    pub fn finish(self) -> (outcomes: Vec<ApplyOutcome>)
        ensures
            outcome_views(outcomes@) == self@.outcomes,
    {
        self.outcomes
    }
}

/// Applies the diffs of `plan` in plan order, all under `strategy`, where
/// `reads[i]` is what reading the target of entry `i` gave when its turn
/// came. An entry without a read is not attempted.
///
/// The first entry that fails ends the run: its error comes back, the
/// outcomes of the entries before it are dropped, and the steps those entries
/// committed are reported as committed.
pub fn apply_plan(plan: &ApplyPlan, strategy: ApplyStrategy, reads: &Vec<ReadOutcome>) -> (report:
    PlanReport)
    ensures
        report@ == plan_report(entry_views(plan.diffs@), strategy, read_views(reads@)),
{
    let ghost entries = entry_views(plan.diffs@);
    let ghost given = read_views(reads@);
    let ghost all = decisions(entries, strategy, given);
    let count = if plan.diffs.len() <= reads.len() {
        plan.diffs.len()
    } else {
        reads.len()
    };
    let mut committed: Vec<Vec<FsAction>> = Vec::new();
    let mut run = PlanRun::start(plan, strategy);
    let mut i: usize = 0;
    while i < count
        invariant
            i <= count,
            count == all.len(),
            count <= plan.diffs@.len(),
            count <= reads@.len(),
            entries == entry_views(plan.diffs@),
            given == read_views(reads@),
            all == decisions(entries, strategy, given),
            committed@.len() == i,
            run@.entries == entries,
            run@.strategy == strategy,
            run@.outcomes.len() == i,
            forall|j: int| 0 <= j < i ==> !failed()(#[trigger] all[j]),
            forall|j: int|
                0 <= j < i ==> action_views(#[trigger] committed@[j]@) == all[j]->Ok_0.actions,
            forall|j: int| 0 <= j < i ==> #[trigger] run@.outcomes[j] == all[j]->Ok_0.outcome,
        decreases count - i,
    {
        match run.feed(reads[i].duplicate()) {
            Ok((moved, actions)) => {
                committed.push(actions);
                run = moved;
            },
            Err(error) => {
                proof {
                    lemma_find_first_some(all, failed(), i as int);
                }
                let report = PlanReport { committed, result: Err(error) };
                assert(report@.committed =~= plan_report(entries, strategy, given).committed);
                return report;
            },
        }
        i += 1;
    }
    proof {
        lemma_find_first_none(all, failed());
    }
    let report = PlanReport { committed, result: Ok(run.finish()) };
    assert(report@.committed =~= plan_report(entries, strategy, given).committed);
    assert(report@.result->Ok_0 =~= plan_report(entries, strategy, given).result->Ok_0);
    report
}

/// A plan is fail-fast: where entry `k` is the first that fails, its error
/// is the result, and what is committed is exactly what the entries before
/// it planned, in plan order.
pub proof fn lemma_plan_stops_at_first_failure(
    entries: Seq<ScaffoldDiffView>,
    strategy: ApplyStrategy,
    reads: Seq<ReadView>,
    k: int,
)
    requires
        0 <= k < attempted(entries, reads),
        decisions(entries, strategy, reads)[k] is Err,
        forall|i: int| 0 <= i < k ==> (#[trigger] decisions(entries, strategy, reads)[i]) is Ok,
    ensures
        plan_report(entries, strategy, reads).result == Err::<
            Seq<ApplyOutcomeView>,
            ApplyErrorView,
        >(decisions(entries, strategy, reads)[k]->Err_0),
        plan_report(entries, strategy, reads).committed.len() == k,
        forall|i: int|
            0 <= i < k ==> #[trigger] plan_report(entries, strategy, reads).committed[i]
                == decisions(entries, strategy, reads)[i]->Ok_0.actions,
{
    let all = decisions(entries, strategy, reads);
    assert forall|i: int| 0 <= i < k implies !failed()(#[trigger] all[i]) by {}
    lemma_find_first_some(all, failed(), k);
}

/// No entry after the first failure is attempted: the run ends the same
/// whatever follows the failing entry in the plan, and whatever reading the
/// later targets would have given.
pub proof fn lemma_entries_after_a_failure_are_not_attempted(
    entries: Seq<ScaffoldDiffView>,
    reads: Seq<ReadView>,
    others: Seq<ScaffoldDiffView>,
    other_reads: Seq<ReadView>,
    strategy: ApplyStrategy,
    k: int,
)
    requires
        0 <= k < attempted(entries, reads),
        0 <= k < attempted(others, other_reads),
        decisions(entries, strategy, reads)[k] is Err,
        forall|i: int| 0 <= i < k ==> (#[trigger] decisions(entries, strategy, reads)[i]) is Ok,
        forall|i: int| 0 <= i <= k ==> others[i] == entries[i] && other_reads[i] == reads[i],
    ensures
        plan_report(others, strategy, other_reads) == plan_report(entries, strategy, reads),
{
    let all = decisions(entries, strategy, reads);
    let all_others = decisions(others, strategy, other_reads);
    assert forall|i: int| 0 <= i <= k implies all_others[i] == all[i] by {}
    lemma_plan_stops_at_first_failure(entries, strategy, reads, k);
    lemma_plan_stops_at_first_failure(others, strategy, other_reads, k);
    assert(plan_report(others, strategy, other_reads).committed =~= plan_report(
        entries,
        strategy,
        reads,
    ).committed);
}

/// A plan is order-preserving: where no entry fails, the outcomes and the
/// committed steps stand in plan order, one for each entry.
pub proof fn lemma_plan_keeps_its_order(
    entries: Seq<ScaffoldDiffView>,
    strategy: ApplyStrategy,
    reads: Seq<ReadView>,
)
    requires
        forall|i: int|
            0 <= i < attempted(entries, reads) ==> (#[trigger] decisions(
                entries,
                strategy,
                reads,
            )[i]) is Ok,
    ensures
        plan_report(entries, strategy, reads).result is Ok,
        plan_report(entries, strategy, reads).result->Ok_0.len() == attempted(entries, reads),
        plan_report(entries, strategy, reads).committed.len() == attempted(entries, reads),
        forall|i: int|
            0 <= i < attempted(entries, reads) ==> {
                &&& #[trigger] plan_report(entries, strategy, reads).result->Ok_0[i] == decided(
                    entry_options(entries[i], strategy),
                    reads[i],
                )->Ok_0.outcome
                &&& plan_report(entries, strategy, reads).committed[i] == decided(
                    entry_options(entries[i], strategy),
                    reads[i],
                )->Ok_0.actions
            },
{
    let all = decisions(entries, strategy, reads);
    assert forall|i: int| 0 <= i < all.len() implies !failed()(#[trigger] all[i]) by {}
    lemma_find_first_none(all, failed());
}

/// A dry run of a plan commits no step at all.
pub proof fn lemma_dry_run_of_a_plan_commits_nothing(
    entries: Seq<ScaffoldDiffView>,
    reads: Seq<ReadView>,
)
    ensures
        ({
            let report = plan_report(entries, ApplyStrategy::DryRun, reads);
            forall|i: int|
                0 <= i < report.committed.len() ==> (#[trigger] report.committed[i]).len() == 0
        }),
{
    let all = decisions(entries, ApplyStrategy::DryRun, reads);
    let report = plan_report(entries, ApplyStrategy::DryRun, reads);
    assert forall|i: int| 0 <= i < report.committed.len() implies (
    #[trigger] report.committed[i]).len() == 0 by {
        match find_first(all, failed()) {
            Some(k) => {
            },
            None => {
                if all[i] is Err {
                    lemma_some_failure_has_a_first(all, i);
                }
            },
        }
    }
}

/// Where an element fails, there is a first that fails.
proof fn lemma_some_failure_has_a_first(
    all: Seq<Result<ApplyDecisionView, ApplyErrorView>>,
    i: int,
)
    requires
        0 <= i < all.len(),
        failed()(all[i]),
    ensures
        find_first(all, failed()) is Some,
    decreases i,
{
    if exists|j: int| 0 <= j < i && failed()(#[trigger] all[j]) {
        let j = choose|j: int| 0 <= j < i && failed()(#[trigger] all[j]);
        lemma_some_failure_has_a_first(all, j);
    } else {
        assert(is_first(all, failed(), i));
    }
}

} // verus!
