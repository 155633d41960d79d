//! The life of one worker slot: what it does next, given where it stands and
//! what has just happened.
//!
//! A slot runs one simulator at a time. The caller does the work (it
//! provisions, starts the simulator, injects, waits) and reports what came of
//! it; the slot says what follows.

use vstd::prelude::*;

verus! {

/// Where a worker slot stands.
#[derive(Debug, Clone, Copy, PartialEq, Eq, Structural, Hash)]
pub enum WorkerState {
    /// Free for the next iteration.
    Idle,
    /// A workspace is being assembled for it.
    Provisioning,
    /// Its simulator is being started and the input injected.
    Running,
    /// The input runs; the outcome is awaited.
    Observing,
    /// The target faulted on the input.
    Faulted,
    /// Out of service for the rest of the campaign.
    Failed,
}

/// What the caller reports to a slot.
#[derive(Debug, Clone, Copy, PartialEq, Eq, Structural, Hash)]
pub enum WorkerEvent {
    /// The slot was picked for the next iteration.
    Scheduled,
    /// The workspace is ready.
    Provisioned,
    /// The workspace could not be assembled.
    ProvisioningFailed,
    /// The simulator runs and has the input.
    InputInjected,
    /// The target ran the input to its end.
    Completed,
    /// The time allowed for one execution ran out and no fault was reported.
    TimedOut,
    /// The target faulted, and the fault is one the architecture defines.
    FaultClassified,
    /// The target faulted with a code the architecture does not define.
    FaultUnknown,
    /// The simulator is gone, or the command channel to it.
    BridgeLost,
    /// The campaign was told to stop.
    Cancelled,
    /// What was left of a faulted run has been cleared away.
    Recycled,
}

/// What the caller is to do next for a slot.
#[derive(Debug, Clone, Copy, PartialEq, Eq, Structural, Hash)]
pub enum WorkerAction {
    /// Assemble a fresh workspace.
    Provision,
    /// Start the simulator on the workspace and inject the candidate input.
    StartAndInject,
    /// Wait for completion, a timeout or an exception.
    Observe,
    /// Pass the feedback of the run to the mutation engine.
    ForwardFeedback,
    /// Clear away what the faulted run left.
    Recycle,
    /// Abandon the command in flight and tear the session down.
    TearDown,
    /// Take the slot out of service and say why.
    Retire,
    /// Nothing, until the slot is scheduled again.
    Wait,
}

/// The rules of the campaign that bear on a single slot.
#[derive(Debug, Clone, Copy, PartialEq, Eq, Structural, Hash)]
pub struct WorkerRules {
    /// How often in a row a slot may lose its simulator and be given a fresh
    /// workspace before it is taken out of service.
    pub max_bridge_retries: u32,
    /// Whether an execution that runs out of time counts as a harmless end.
    pub timeout_is_benign: bool,
}

/// A worker slot.
#[derive(Debug, Clone, Copy, PartialEq, Eq, Structural, Hash)]
pub struct WorkerSlot {
    pub state: WorkerState,
    /// How often in a row the slot has lost its simulator.
    pub bridge_failures: u32,
}

impl WorkerSlot {
    /// Whether the slot is between two steps of the caller's work, so that a
    /// result of it is still to come.
    pub open spec fn in_flight(self) -> bool {
        self.state == WorkerState::Provisioning || self.state == WorkerState::Running
            || self.state == WorkerState::Observing
    }

    /// The slot and the action that follow an event, or `None` where the
    /// event cannot happen to a slot in this state.
    pub open spec fn stepped(self, event: WorkerEvent, rules: WorkerRules) -> Option<
        (WorkerSlot, WorkerAction),
    > {
        match (self.state, event) {
            (WorkerState::Idle, WorkerEvent::Scheduled) => Some(
                (
                    WorkerSlot { state: WorkerState::Provisioning, ..self },
                    WorkerAction::Provision,
                ),
            ),
            (WorkerState::Provisioning, WorkerEvent::Provisioned) => Some(
                (
                    WorkerSlot { state: WorkerState::Running, ..self },
                    WorkerAction::StartAndInject,
                ),
            ),
            (WorkerState::Provisioning, WorkerEvent::ProvisioningFailed) => Some(
                (WorkerSlot { state: WorkerState::Failed, ..self }, WorkerAction::Retire),
            ),
            (WorkerState::Running, WorkerEvent::InputInjected) => Some(
                (WorkerSlot { state: WorkerState::Observing, ..self }, WorkerAction::Observe),
            ),
            (WorkerState::Observing, WorkerEvent::Completed) => Some(
                (
                    WorkerSlot { state: WorkerState::Idle, bridge_failures: 0 },
                    WorkerAction::ForwardFeedback,
                ),
            ),
            (WorkerState::Observing, WorkerEvent::TimedOut) => if rules.timeout_is_benign {
                Some(
                    (
                        WorkerSlot { state: WorkerState::Idle, bridge_failures: 0 },
                        WorkerAction::ForwardFeedback,
                    ),
                )
            } else {
                Some(
                    (
                        WorkerSlot { state: WorkerState::Faulted, bridge_failures: 0 },
                        WorkerAction::Recycle,
                    ),
                )
            },
            (WorkerState::Observing, WorkerEvent::FaultClassified) => Some(
                (
                    WorkerSlot { state: WorkerState::Faulted, bridge_failures: 0 },
                    WorkerAction::Recycle,
                ),
            ),
            (WorkerState::Observing, WorkerEvent::FaultUnknown) => Some(
                (WorkerSlot { state: WorkerState::Failed, ..self }, WorkerAction::Retire),
            ),
            (WorkerState::Running, WorkerEvent::BridgeLost)
            | (WorkerState::Observing, WorkerEvent::BridgeLost) => if self.bridge_failures
                < rules.max_bridge_retries {
                Some(
                    (
                        WorkerSlot {
                            state: WorkerState::Provisioning,
                            bridge_failures: (self.bridge_failures + 1) as u32,
                        },
                        WorkerAction::Provision,
                    ),
                )
            } else {
                Some((WorkerSlot { state: WorkerState::Failed, ..self }, WorkerAction::Retire))
            },
            (WorkerState::Provisioning, WorkerEvent::Cancelled)
            | (WorkerState::Running, WorkerEvent::Cancelled)
            | (WorkerState::Observing, WorkerEvent::Cancelled) => Some(
                (WorkerSlot { state: WorkerState::Idle, ..self }, WorkerAction::TearDown),
            ),
            (WorkerState::Faulted, WorkerEvent::Recycled) => Some(
                (WorkerSlot { state: WorkerState::Idle, ..self }, WorkerAction::Wait),
            ),
            _ => None,
        }
    }

    /// A slot that has not run anything yet.
    pub fn new() -> (slot: WorkerSlot)
        ensures
            slot == (WorkerSlot { state: WorkerState::Idle, bridge_failures: 0 }),
    {
        WorkerSlot { state: WorkerState::Idle, bridge_failures: 0 }
    }

    /// Takes a slot through one event. The slot and the action that follow
    /// are returned; an event that cannot happen to a slot in this state gives
    /// `None`, and the slot stays as it is.
    pub fn step(self, event: WorkerEvent, rules: WorkerRules) -> (r: Option<
        (WorkerSlot, WorkerAction),
    >)
        ensures
            r == self.stepped(event, rules),
    {
        let failures = self.bridge_failures;
        match self.state {
            WorkerState::Idle => match event {
                WorkerEvent::Scheduled => Some(
                    (
                        WorkerSlot { state: WorkerState::Provisioning, bridge_failures: failures },
                        WorkerAction::Provision,
                    ),
                ),
                _ => None,
            },
            WorkerState::Provisioning => match event {
                WorkerEvent::Provisioned => Some(
                    (
                        WorkerSlot { state: WorkerState::Running, bridge_failures: failures },
                        WorkerAction::StartAndInject,
                    ),
                ),
                WorkerEvent::ProvisioningFailed => Some(
                    (
                        WorkerSlot { state: WorkerState::Failed, bridge_failures: failures },
                        WorkerAction::Retire,
                    ),
                ),
                WorkerEvent::Cancelled => Some(
                    (
                        WorkerSlot { state: WorkerState::Idle, bridge_failures: failures },
                        WorkerAction::TearDown,
                    ),
                ),
                _ => None,
            },
            WorkerState::Running => match event {
                WorkerEvent::InputInjected => Some(
                    (
                        WorkerSlot { state: WorkerState::Observing, bridge_failures: failures },
                        WorkerAction::Observe,
                    ),
                ),
                WorkerEvent::BridgeLost => Some(self.after_bridge_loss(rules)),
                WorkerEvent::Cancelled => Some(
                    (
                        WorkerSlot { state: WorkerState::Idle, bridge_failures: failures },
                        WorkerAction::TearDown,
                    ),
                ),
                _ => None,
            },
            WorkerState::Observing => match event {
                WorkerEvent::Completed => Some(
                    (
                        WorkerSlot { state: WorkerState::Idle, bridge_failures: 0 },
                        WorkerAction::ForwardFeedback,
                    ),
                ),
                WorkerEvent::TimedOut => if rules.timeout_is_benign {
                    Some(
                        (
                            WorkerSlot { state: WorkerState::Idle, bridge_failures: 0 },
                            WorkerAction::ForwardFeedback,
                        ),
                    )
                } else {
                    Some(
                        (
                            WorkerSlot { state: WorkerState::Faulted, bridge_failures: 0 },
                            WorkerAction::Recycle,
                        ),
                    )
                },
                WorkerEvent::FaultClassified => Some(
                    (
                        WorkerSlot { state: WorkerState::Faulted, bridge_failures: 0 },
                        WorkerAction::Recycle,
                    ),
                ),
                WorkerEvent::FaultUnknown => Some(
                    (
                        WorkerSlot { state: WorkerState::Failed, bridge_failures: failures },
                        WorkerAction::Retire,
                    ),
                ),
                WorkerEvent::BridgeLost => Some(self.after_bridge_loss(rules)),
                WorkerEvent::Cancelled => Some(
                    (
                        WorkerSlot { state: WorkerState::Idle, bridge_failures: failures },
                        WorkerAction::TearDown,
                    ),
                ),
                _ => None,
            },
            WorkerState::Faulted => match event {
                WorkerEvent::Recycled => Some(
                    (
                        WorkerSlot { state: WorkerState::Idle, bridge_failures: failures },
                        WorkerAction::Wait,
                    ),
                ),
                _ => None,
            },
            WorkerState::Failed => None,
        }
    }

    /// What follows the loss of the simulator: a fresh workspace while
    /// retries are left, the end of the slot when they are used up.
    fn after_bridge_loss(self, rules: WorkerRules) -> (r: (WorkerSlot, WorkerAction))
        ensures
            self.bridge_failures < rules.max_bridge_retries ==> r == (
                WorkerSlot {
                    state: WorkerState::Provisioning,
                    bridge_failures: (self.bridge_failures + 1) as u32,
                },
                WorkerAction::Provision,
            ),
            self.bridge_failures >= rules.max_bridge_retries ==> r == (
                WorkerSlot { state: WorkerState::Failed, bridge_failures: self.bridge_failures },
                WorkerAction::Retire,
            ),
    {
        if self.bridge_failures < rules.max_bridge_retries {
            (
                WorkerSlot {
                    state: WorkerState::Provisioning,
                    bridge_failures: self.bridge_failures + 1,
                },
                WorkerAction::Provision,
            )
        } else {
            (
                WorkerSlot { state: WorkerState::Failed, bridge_failures: self.bridge_failures },
                WorkerAction::Retire,
            )
        }
    }
}

/// Whether a slot may pass from one state to the other in one step.
pub open spec fn is_edge(from: WorkerState, to: WorkerState) -> bool {
    match from {
        WorkerState::Idle => to == WorkerState::Provisioning,
        WorkerState::Provisioning => to == WorkerState::Running || to == WorkerState::Failed || to
            == WorkerState::Idle,
        WorkerState::Running => to == WorkerState::Observing || to == WorkerState::Provisioning
            || to == WorkerState::Failed || to == WorkerState::Idle,
        WorkerState::Observing => to == WorkerState::Idle || to == WorkerState::Faulted || to
            == WorkerState::Provisioning || to == WorkerState::Failed,
        WorkerState::Faulted => to == WorkerState::Idle,
        WorkerState::Failed => false,
    }
}

/// A slot only ever moves along the edges of its life cycle, and a slot that
/// is out of service stays so: no event does anything to it.
pub proof fn lemma_steps_follow_life_cycle(slot: WorkerSlot, event: WorkerEvent, rules: WorkerRules)
    ensures
        slot.stepped(event, rules) matches Some((next, _)) ==> is_edge(slot.state, next.state),
        slot.state == WorkerState::Failed ==> slot.stepped(event, rules) is None,
{
}

/// A workspace that cannot be assembled ends the slot at once; so does a
/// fault code that the architecture does not define.
pub proof fn lemma_structural_failures_end_the_slot(slot: WorkerSlot, rules: WorkerRules)
    ensures
        slot.state == WorkerState::Provisioning ==> slot.stepped(
            WorkerEvent::ProvisioningFailed,
            rules,
        ) == Some((WorkerSlot { state: WorkerState::Failed, ..slot }, WorkerAction::Retire)),
        slot.state == WorkerState::Observing ==> slot.stepped(WorkerEvent::FaultUnknown, rules)
            == Some((WorkerSlot { state: WorkerState::Failed, ..slot }, WorkerAction::Retire)),
{
}

/// The count of simulators lost in a row never passes the bound on retries:
/// while it is below the bound a loss is answered with a fresh workspace, and
/// at the bound the slot is taken out of service.
pub proof fn lemma_retries_are_bounded(slot: WorkerSlot, event: WorkerEvent, rules: WorkerRules)
    requires
        slot.bridge_failures <= rules.max_bridge_retries,
    ensures
        slot.stepped(event, rules) matches Some((next, action)) ==> {
            &&& next.bridge_failures <= rules.max_bridge_retries
            &&& (event == WorkerEvent::BridgeLost && slot.bridge_failures
                == rules.max_bridge_retries ==> next.state == WorkerState::Failed && action
                == WorkerAction::Retire)
            &&& (event == WorkerEvent::BridgeLost && slot.bridge_failures
                < rules.max_bridge_retries ==> next.state == WorkerState::Provisioning && action
                == WorkerAction::Provision && next.bridge_failures == slot.bridge_failures + 1)
        },
{
}

} // verus!
