//! One fuzzing campaign: its worker slots, its budget, its corpus and its
//! archive of crashes.
//!
//! The caller runs the workers and reports to the campaign what happens to
//! each; the campaign keeps the books and says what each slot does next.

use crate::fault::{classified, classify, Architecture, ClassificationError, Fault, FaultPolicy};
use crate::store::{archived, CorpusEntry, CorpusItem, CorpusStore, Crash, SolutionStore};
use crate::worker::{WorkerAction, WorkerEvent, WorkerRules, WorkerSlot, WorkerState};
use vstd::prelude::*;

verus! {

/// What a campaign is set up with.
#[derive(Debug)]
pub struct CampaignConfig {
    /// The number of worker slots.
    pub workers: usize,
    /// The number of iterations after which the campaign ends, if it is bounded.
    pub iterations: Option<u64>,
    /// The seconds of wall-clock time after which the campaign ends, if it is
    /// bounded.
    pub time_limit: Option<u64>,
    /// The faults that count as crashes.
    pub policy: FaultPolicy,
    /// The rules for a single slot.
    pub rules: WorkerRules,
    /// Whether the workspaces are kept for inspection until the campaign ends.
    pub keep_workspaces: bool,
}

/// A campaign in progress.
#[derive(Debug)]
pub struct Campaign {
    config: CampaignConfig,
    slots: Vec<WorkerSlot>,
    corpus: CorpusStore,
    solutions: SolutionStore,
    iterations: u64,
    stopped: bool,
}

/// All that a campaign holds, as plain mathematics.
pub struct CampaignState {
    pub policy: Set<Fault>,
    pub rules: WorkerRules,
    pub iteration_budget: Option<u64>,
    pub time_budget: Option<u64>,
    pub keep_workspaces: bool,
    pub slots: Seq<WorkerSlot>,
    pub corpus: Seq<CorpusItem>,
    pub solutions: Seq<Crash>,
    /// The iterations started so far.
    pub iterations: u64,
    pub stopped: bool,
}

/// What the campaign made of an exception.
#[derive(Debug, Clone, Copy, PartialEq, Eq, Structural, Hash)]
pub enum Observation {
    /// The fault counts as a crash. `kept` says whether the input went into
    /// the archive; it did not if its content was there already.
    Crash { fault: Fault, kept: bool },
    /// The fault does not count as a crash under the policy. Nothing is kept.
    Tolerated { fault: Fault },
    /// The slot was not waiting for an outcome. Nothing has changed.
    Unexpected { fault: Fault },
}

/// What a campaign has to show.
#[derive(Debug, Clone, Copy, PartialEq, Eq, Structural, Hash)]
pub struct CampaignReport {
    pub corpus: usize,
    pub solutions: usize,
    pub iterations: u64,
    /// The slots that are out of service.
    pub failed_workers: usize,
}

impl View for Campaign {
    type V = CampaignState;

    closed spec fn view(&self) -> CampaignState {
        CampaignState {
            policy: self.config.policy@,
            rules: self.config.rules,
            iteration_budget: self.config.iterations,
            time_budget: self.config.time_limit,
            keep_workspaces: self.config.keep_workspaces,
            slots: self.slots@,
            corpus: self.corpus@,
            solutions: self.solutions@,
            iterations: self.iterations,
            stopped: self.stopped,
        }
    }
}

/// The number of slots among the first `upto` that are out of service.
pub open spec fn failed_among(slots: Seq<WorkerSlot>, upto: int) -> int
    decreases upto,
{
    if upto <= 0 {
        0
    } else {
        failed_among(slots, upto - 1) + if slots[upto - 1].state == WorkerState::Failed {
            1int
        } else {
            0int
        }
    }
}

impl CampaignState {
    /// Whether nothing more is to be started: the campaign was stopped, the
    /// iterations are used up, or the time is.
    pub open spec fn is_exhausted(self, elapsed: u64) -> bool {
        ||| self.stopped
        ||| (self.iteration_budget matches Some(limit) && self.iterations >= limit)
        ||| (self.time_budget matches Some(limit) && elapsed >= limit)
    }

    /// Whether no slot has work under way whose result is still to come.
    pub open spec fn is_drained(self) -> bool {
        forall|i: int| 0 <= i < self.slots.len() ==> !(#[trigger] self.slots[i]).in_flight()
    }

    /// Whether the workspace of a slot may be removed. While the slot has
    /// work under way it may not. After that it may at once, unless the
    /// workspaces are kept: then only when the campaign has stopped and no
    /// slot has work under way.
    pub open spec fn releases_workspace(self, slot: int) -> bool {
        &&& 0 <= slot < self.slots.len()
        &&& !self.slots[slot].in_flight()
        &&& (self.keep_workspaces ==> self.stopped && self.is_drained())
    }

    /// The campaign after a stop was asked for.
    pub open spec fn halted(self) -> CampaignState {
        CampaignState { stopped: true, ..self }
    }

    /// The campaign after an entry was added to the corpus.
    pub open spec fn fed(self, item: CorpusItem) -> CampaignState {
        CampaignState { corpus: self.corpus.push(item), ..self }
    }

    /// The campaign and the action after an event was reported for a slot.
    /// Faults do not come this way: see [`CampaignState::after_exception`].
    pub open spec fn delivered(self, slot: int, event: WorkerEvent) -> (
        CampaignState,
        Option<WorkerAction>,
    ) {
        if 0 <= slot < self.slots.len() && event != WorkerEvent::FaultClassified && event
            != WorkerEvent::FaultUnknown {
            match self.slots[slot].stepped(event, self.rules) {
                Some((next, action)) => (
                    CampaignState { slots: self.slots.update(slot, next), ..self },
                    Some(action),
                ),
                None => (self, None),
            }
        } else {
            (self, None)
        }
    }

    /// The campaign and the action at the top of an iteration of a slot. With
    /// the budget used up the campaign is stopped and nothing is started;
    /// otherwise an idle slot starts its next iteration, which is counted.
    pub open spec fn scheduled(self, slot: int, elapsed: u64) -> (
        CampaignState,
        Option<WorkerAction>,
    ) {
        if self.is_exhausted(elapsed) {
            (self.halted(), None)
        } else {
            match self.delivered(slot, WorkerEvent::Scheduled) {
                (next, Some(action)) => (
                    CampaignState {
                        iterations: if self.iterations < u64::MAX {
                            (self.iterations + 1) as u64
                        } else {
                            self.iterations
                        },
                        ..next
                    },
                    Some(action),
                ),
                (_, None) => (self, None),
            }
        }
    }

    /// The archive after a slot reported a fault on an input: the input is
    /// handed in if the slot was waiting for an outcome and the policy counts
    /// the fault as a crash, and in no other case.
    pub open spec fn solutions_after_fault(self, slot: int, fault: Fault, input: Seq<u8>) -> Seq<
        Crash,
    > {
        if 0 <= slot < self.slots.len() && self.slots[slot].state == WorkerState::Observing
            && self.policy.contains(fault) {
            archived(self.solutions, input, fault)
        } else {
            self.solutions
        }
    }

    /// The campaign after a slot reported an exception with a raw code, on
    /// the input that it was running.
    pub open spec fn after_exception(
        self,
        slot: int,
        architecture: Architecture,
        raw_code: i64,
        input: Seq<u8>,
    ) -> CampaignState {
        if 0 <= slot < self.slots.len() && self.slots[slot].state == WorkerState::Observing {
            match classified(architecture, raw_code) {
                Ok(fault) => CampaignState {
                    slots: self.slots.update(
                        slot,
                        WorkerSlot { state: WorkerState::Faulted, bridge_failures: 0 },
                    ),
                    solutions: self.solutions_after_fault(slot, fault, input),
                    ..self
                },
                Err(_) => CampaignState {
                    slots: self.slots.update(
                        slot,
                        WorkerSlot { state: WorkerState::Failed, ..self.slots[slot] },
                    ),
                    ..self
                },
            }
        } else {
            self
        }
    }

    /// What is returned for an exception.
    pub open spec fn verdict(
        self,
        slot: int,
        architecture: Architecture,
        raw_code: i64,
        input: Seq<u8>,
    ) -> Result<Observation, ClassificationError> {
        match classified(architecture, raw_code) {
            Ok(fault) => if 0 <= slot < self.slots.len() && self.slots[slot].state
                == WorkerState::Observing {
                if self.policy.contains(fault) {
                    Ok(
                        Observation::Crash {
                            fault,
                            kept: self.solutions_after_fault(slot, fault, input).len()
                                > self.solutions.len(),
                        },
                    )
                } else {
                    Ok(Observation::Tolerated { fault })
                }
            } else {
                Ok(Observation::Unexpected { fault })
            },
            Err(e) => Err(e),
        }
    }
}

impl Campaign {
    /// A campaign that has not started: every slot idle, both stores empty.
    pub fn new(config: CampaignConfig) -> (campaign: Campaign)
        ensures
            campaign@ == (CampaignState {
                policy: config.policy@,
                rules: config.rules,
                iteration_budget: config.iterations,
                time_budget: config.time_limit,
                keep_workspaces: config.keep_workspaces,
                slots: Seq::new(
                    config.workers as nat,
                    |i: int| WorkerSlot { state: WorkerState::Idle, bridge_failures: 0 },
                ),
                corpus: Seq::<CorpusItem>::empty(),
                solutions: Seq::<Crash>::empty(),
                iterations: 0,
                stopped: false,
            }),
    {
        let mut slots: Vec<WorkerSlot> = Vec::new();
        let mut i: usize = 0;
        while i < config.workers
            invariant
                i <= config.workers,
                slots@.len() == i,
                forall|j: int|
                    0 <= j < i ==> slots@[j] == (WorkerSlot {
                        state: WorkerState::Idle,
                        bridge_failures: 0,
                    }),
            decreases config.workers - i,
        {
            slots.push(WorkerSlot::new());
            i += 1;
        }
        assert(slots@ =~= Seq::new(
            config.workers as nat,
            |i: int| WorkerSlot { state: WorkerState::Idle, bridge_failures: 0 },
        ));
        Campaign {
            config,
            slots,
            corpus: CorpusStore::new(),
            solutions: SolutionStore::new(),
            iterations: 0,
            stopped: false,
        }
    }

    /// Adds an entry to the corpus: a seed at the start of the campaign, or
    /// an input that the mutation engine found worth keeping.
    pub fn add_corpus_entry(&mut self, entry: CorpusEntry)
        ensures
            final(self)@ == old(self)@.fed(entry.deep_view()),
    {
        self.corpus.append(entry);
    }

    /// Asks the campaign to stop. Nothing is started from now on.
    pub fn stop(&mut self)
        ensures
            final(self)@ == old(self)@.halted(),
    {
        self.stopped = true;
    }

    /// Whether nothing more is to be started, `elapsed` seconds into the
    /// campaign.
    pub fn exhausted(&self, elapsed: u64) -> (b: bool)
        ensures
            b == self@.is_exhausted(elapsed),
    {
        if self.stopped {
            return true;
        }
        let by_count = match self.config.iterations {
            Some(limit) => self.iterations >= limit,
            None => false,
        };
        let by_time = match self.config.time_limit {
            Some(limit) => elapsed >= limit,
            None => false,
        };
        by_count || by_time
    }

    /// Whether no slot has work under way whose result is still to come.
    pub fn drained(&self) -> (b: bool)
        ensures
            b == self@.is_drained(),
    {
        let mut i: usize = 0;
        while i < self.slots.len()
            invariant
                i <= self.slots.len(),
                forall|j: int| 0 <= j < i ==> !(#[trigger] self.slots@[j]).in_flight(),
            decreases self.slots.len() - i,
        {
            let state = self.slots[i].state;
            if state == WorkerState::Provisioning || state == WorkerState::Running || state
                == WorkerState::Observing {
                assert(self@.slots[i as int].in_flight());
                return false;
            }
            i += 1;
        }
        true
    }

    /// Whether the workspace of a slot may be removed now.
    pub fn workspace_is_released(&self, slot: usize) -> (b: bool)
        ensures
            b == self@.releases_workspace(slot as int),
    {
        if slot >= self.slots.len() {
            return false;
        }
        let state = self.slots[slot].state;
        if state == WorkerState::Provisioning || state == WorkerState::Running || state
            == WorkerState::Observing {
            return false;
        }
        if self.config.keep_workspaces {
            self.stopped && self.drained()
        } else {
            true
        }
    }

    /// The state of a slot, if there is such a slot.
    pub fn slot(&self, slot: usize) -> (r: Option<WorkerSlot>)
        ensures
            r == if slot < self@.slots.len() {
                Some(self@.slots[slot as int])
            } else {
                None
            },
    {
        if slot < self.slots.len() {
            Some(self.slots[slot])
        } else {
            None
        }
    }

    /// The corpus.
    pub fn corpus(&self) -> (corpus: &CorpusStore)
        ensures
            corpus@ == self@.corpus,
    {
        &self.corpus
    }

    /// The archive of crashes.
    pub fn solutions(&self) -> (solutions: &SolutionStore)
        ensures
            solutions@ == self@.solutions,
    {
        &self.solutions
    }

    /// Reports an event for a slot and says what the slot does next. An event
    /// that cannot happen to the slot as it stands changes nothing and gives
    /// `None`; so does a fault, which is reported with
    /// [`Campaign::observe_exception`].
    pub fn deliver(&mut self, slot: usize, event: WorkerEvent) -> (action: Option<WorkerAction>)
        ensures
            (final(self)@, action) == old(self)@.delivered(slot as int, event),
    {
        if slot >= self.slots.len() || event == WorkerEvent::FaultClassified || event
            == WorkerEvent::FaultUnknown {
            return None;
        }
        match self.slots[slot].step(event, self.config.rules) {
            Some((next, action)) => {
                self.slots.set(slot, next);
                Some(action)
            },
            None => None,
        }
    }

    /// The top of an iteration of a slot, `elapsed` seconds into the
    /// campaign. With the budget used up the campaign is stopped and nothing
    /// is started; otherwise an idle slot starts its next iteration.
    pub fn schedule(&mut self, slot: usize, elapsed: u64) -> (action: Option<WorkerAction>)
        ensures
            (final(self)@, action) == old(self)@.scheduled(slot as int, elapsed),
    {
        if self.exhausted(elapsed) {
            self.stopped = true;
            return None;
        }
        match self.deliver(slot, WorkerEvent::Scheduled) {
            Some(action) => {
                if self.iterations < u64::MAX {
                    self.iterations = self.iterations + 1;
                }
                Some(action)
            },
            None => None,
        }
    }

    /// Reports an exception of the target: the architecture and the raw
    /// code that the simulator gave, and the input that was running.
    ///
    /// A code that the architecture does not define is an error, and it
    /// takes a waiting slot out of service. A fault that the policy counts as
    /// a crash puts the input into the archive, once per content; any other
    /// fault leaves the archive alone.
    pub fn observe_exception(
        &mut self,
        slot: usize,
        architecture: Architecture,
        raw_code: i64,
        input: Vec<u8>,
    ) -> (r: Result<Observation, ClassificationError>)
        ensures
            final(self)@ == old(self)@.after_exception(slot as int, architecture, raw_code, input@),
            r == old(self)@.verdict(slot as int, architecture, raw_code, input@),
    {
        let waiting = slot < self.slots.len() && self.slots[slot].state == WorkerState::Observing;
        match classify(architecture, raw_code) {
            Err(e) => {
                if waiting {
                    let failures = self.slots[slot].bridge_failures;
                    self.slots.set(
                        slot,
                        WorkerSlot { state: WorkerState::Failed, bridge_failures: failures },
                    );
                }
                Err(e)
            },
            Ok(fault) => {
                if !waiting {
                    return Ok(Observation::Unexpected { fault });
                }
                self.slots.set(
                    slot,
                    WorkerSlot { state: WorkerState::Faulted, bridge_failures: 0 },
                );
                if self.config.policy.contains(fault) {
                    let kept = self.solutions.record(input, fault);
                    Ok(Observation::Crash { fault, kept })
                } else {
                    Ok(Observation::Tolerated { fault })
                }
            },
        }
    }

    /// What the campaign has to show: the sizes of the two stores, the
    /// iterations started, and the slots that are out of service.
    pub fn report(&self) -> (report: CampaignReport)
        ensures
            report.corpus == self@.corpus.len(),
            report.solutions == self@.solutions.len(),
            report.iterations == self@.iterations,
            report.failed_workers == failed_among(self@.slots, self@.slots.len() as int),
    {
        let mut failed: usize = 0;
        let mut i: usize = 0;
        while i < self.slots.len()
            invariant
                i <= self.slots.len(),
                failed <= i,
                failed == failed_among(self.slots@, i as int),
            decreases self.slots.len() - i,
        {
            if self.slots[i].state == WorkerState::Failed {
                failed += 1;
            }
            i += 1;
        }
        CampaignReport {
            corpus: self.corpus.len(),
            solutions: self.solutions.len(),
            iterations: self.iterations,
            failed_workers: failed,
        }
    }
}

/// One thing that is reported to a campaign.
pub enum Report {
    /// An event for a slot, as [`Campaign::deliver`] takes it.
    Event { slot: int, event: WorkerEvent },
    /// The top of an iteration, as [`Campaign::schedule`] takes it.
    Schedule { slot: int, elapsed: u64 },
    /// An exception, as [`Campaign::observe_exception`] takes it.
    Exception { slot: int, architecture: Architecture, raw_code: i64, input: Seq<u8> },
    /// An entry for the corpus.
    Entry { item: CorpusItem },
    /// The request to stop.
    Stop,
}

impl CampaignState {
    /// The campaign after one report.
    pub open spec fn after(self, report: Report) -> CampaignState {
        match report {
            Report::Event { slot, event } => self.delivered(slot, event).0,
            Report::Schedule { slot, elapsed } => self.scheduled(slot, elapsed).0,
            Report::Exception { slot, architecture, raw_code, input } => self.after_exception(
                slot,
                architecture,
                raw_code,
                input,
            ),
            Report::Entry { item } => self.fed(item),
            Report::Stop => self.halted(),
        }
    }

    /// The campaign after a run of reports, in order.
    pub open spec fn replayed(self, reports: Seq<Report>) -> CampaignState
        decreases reports.len(),
    {
        if reports.len() == 0 {
            self
        } else {
            self.replayed(reports.drop_last()).after(reports.last())
        }
    }

    /// Whether the iterations started are within the budget for them.
    pub open spec fn is_within_budget(self) -> bool {
        self.iteration_budget matches Some(limit) ==> self.iterations <= limit
    }
}

/// Whether a report is an exception whose fault the policy counts as a crash.
pub open spec fn is_reportable_exception(policy: Set<Fault>, report: Report) -> bool {
    report matches Report::Exception { architecture, raw_code, .. } && classified(
        architecture,
        raw_code,
    ) matches Ok(fault) && policy.contains(fault)
}

/// No report changes what the campaign was set up with.
pub proof fn lemma_setup_is_kept(state: CampaignState, reports: Seq<Report>)
    ensures
        state.replayed(reports).policy == state.policy,
        state.replayed(reports).rules == state.rules,
        state.replayed(reports).iteration_budget == state.iteration_budget,
        state.replayed(reports).time_budget == state.time_budget,
        state.replayed(reports).keep_workspaces == state.keep_workspaces,
        state.replayed(reports).slots.len() == state.slots.len(),
    decreases reports.len(),
{
    if reports.len() > 0 {
        lemma_setup_is_kept(state, reports.drop_last());
    }
}

/// A fault that the policy does not count as a crash leaves no record,
/// however often it is seen: over any run of reports in which no exception
/// carries a fault of the policy, the archive stays as it was.
pub proof fn lemma_tolerated_faults_leave_no_record(state: CampaignState, reports: Seq<Report>)
    requires
        forall|i: int|
            0 <= i < reports.len() ==> !is_reportable_exception(state.policy, #[trigger] reports[i]),
    ensures
        state.replayed(reports).solutions == state.solutions,
    decreases reports.len(),
{
    if reports.len() > 0 {
        let before = state.replayed(reports.drop_last());
        assert forall|i: int| 0 <= i < reports.drop_last().len() implies !is_reportable_exception(
            state.policy,
            #[trigger] reports.drop_last()[i],
        ) by {
            assert(reports.drop_last()[i] == reports[i]);
        }
        lemma_tolerated_faults_leave_no_record(state, reports.drop_last());
        lemma_setup_is_kept(state, reports.drop_last());
        assert(!is_reportable_exception(state.policy, reports[reports.len() - 1]));
    }
}

/// The archive only grows, and only by an exception whose fault the policy
/// counts as a crash: any other report leaves it as it was, and such an
/// exception leaves the records that were there in their places.
pub proof fn lemma_archive_only_grows(state: CampaignState, report: Report)
    ensures
        state.solutions.len() <= state.after(report).solutions.len() <= state.solutions.len() + 1,
        state.after(report).solutions.take(state.solutions.len() as int) == state.solutions,
        !is_reportable_exception(state.policy, report) ==> state.after(report).solutions
            == state.solutions,
{
    assert(state.after(report).solutions.take(state.solutions.len() as int) =~= state.solutions);
}

/// An input whose content is in the archive is not kept again: once a slot
/// has reported a crash on it, a later report of a fault on the same bytes,
/// from any slot and with any fault, leaves the archive as it is.
pub proof fn lemma_crashing_input_is_kept_once(
    state: CampaignState,
    later: CampaignState,
    slot: int,
    fault: Fault,
    input: Seq<u8>,
    other_slot: int,
    other_fault: Fault,
)
    requires
        0 <= slot < state.slots.len(),
        state.slots[slot].state == WorkerState::Observing,
        state.policy.contains(fault),
        later.solutions == state.solutions_after_fault(slot, fault, input),
    ensures
        later.solutions_after_fault(other_slot, other_fault, input) == later.solutions,
{
    let digest = crate::store::content_hash(input);
    if !crate::store::holds_digest(state.solutions, digest) {
        assert(later.solutions[state.solutions.len() as int].digest == digest);
    } else {
        assert(later.solutions == state.solutions);
    }
    assert(crate::store::holds_digest(later.solutions, digest));
}

/// No more iterations are started than the budget allows: a campaign that
/// is within its budget stays within it, whatever is reported.
pub proof fn lemma_budget_is_kept(state: CampaignState, reports: Seq<Report>)
    requires
        state.is_within_budget(),
    ensures
        state.replayed(reports).is_within_budget(),
    decreases reports.len(),
{
    if reports.len() > 0 {
        lemma_budget_is_kept(state, reports.drop_last());
    }
}

/// A stopped campaign starts nothing: it stays stopped, and the top of an
/// iteration gives no action and counts no iteration.
pub proof fn lemma_stopped_campaign_starts_nothing(state: CampaignState, slot: int, elapsed: u64)
    requires
        state.is_exhausted(elapsed),
    ensures
        state.scheduled(slot, elapsed).1 is None,
        state.scheduled(slot, elapsed).0 == state.halted(),
        state.scheduled(slot, elapsed).0.iterations == state.iterations,
        state.scheduled(slot, elapsed).0.slots == state.slots,
{
}

/// A slot that is out of service is never scheduled again, and nothing that
/// is reported brings it back.
pub proof fn lemma_failed_slot_stays_failed(state: CampaignState, report: Report, slot: int)
    requires
        0 <= slot < state.slots.len(),
        state.slots[slot].state == WorkerState::Failed,
    ensures
        state.after(report).slots[slot] == state.slots[slot],
        forall|elapsed: u64|
            #![trigger state.scheduled(slot, elapsed)]
            state.scheduled(slot, elapsed).1 is None,
{
}

} // verus!
