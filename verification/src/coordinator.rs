//! The lifecycle of the running feed.
//!
//! While the feed runs, the coordinator has the abort flag read at a fixed
//! interval. Once the flag is seen raised it takes the feed down in three
//! steps, always in the same order: the server is told to stop, the service
//! is unregistered, the server's worker is joined. A step that fails is
//! recorded and the steps after it are carried out all the same.
//!
//! The coordinator decides and does nothing else. Its caller carries out each
//! [`Action`] and reports back with an [`Event`].

use vstd::prelude::*;

verus! {

/// The pause between two readings of the abort flag, in milliseconds.
pub const POLL_INTERVAL_MILLIS: u64 = 100;

/// The phases of the lifecycle. They are passed through in this order.
#[derive(Clone, Copy, Debug, PartialEq, Eq, Structural)]
pub enum Phase {
    /// Advertiser and server are up and the abort flag has not been seen raised.
    Running,
    /// The abort flag has been seen raised and the feed is being taken down.
    Stopping,
    /// All three steps of the shutdown have been carried out without a failure.
    Stopped,
}

/// The steps of the shutdown, in the order in which they are carried out.
#[derive(Clone, Copy, Debug, PartialEq, Eq, Structural)]
pub enum ShutdownStep {
    /// Send on the server's stop channel.
    StopServer,
    /// Ask the advertiser to shut down, which unregisters the service.
    UnregisterAdvertiser,
    /// Wait for the server's worker to end.
    JoinServer,
}

/// What the coordinator is waiting for.
#[derive(Clone, Copy, Debug, PartialEq, Eq, Structural)]
pub enum Stage {
    /// The next reading of the abort flag.
    Polling,
    /// The outcome of this step, which it has asked for.
    Awaiting(ShutdownStep),
    /// Nothing: all three steps have been carried out.
    Finished,
}

/// Which steps of the shutdown have failed.
#[derive(Clone, Copy, Debug, PartialEq, Eq, Structural)]
pub struct ShutdownReport {
    pub stop_server_failed: bool,
    pub unregister_failed: bool,
    pub join_failed: bool,
}

/// What the coordinator asks its caller to do.
#[derive(Clone, Copy, Debug, PartialEq, Eq, Structural)]
pub enum Action {
    /// Wait for `after_millis` milliseconds, read the abort flag and report
    /// [`Event::FlagRead`].
    Poll { after_millis: u64 },
    /// Carry out the step and report [`Event::StepFinished`].
    Perform(ShutdownStep),
    /// Leave. `clean` says whether every step of the shutdown succeeded.
    Exit { clean: bool },
}

/// What the caller reports to the coordinator.
#[derive(Clone, Copy, Debug, PartialEq, Eq, Structural)]
pub enum Event {
    /// The abort flag has been read.
    FlagRead { raised: bool },
    /// A step of the shutdown has been carried out.
    StepFinished { step: ShutdownStep, succeeded: bool },
}

/// The coordinator as a mathematical value.
#[derive(Clone, Copy, Debug, PartialEq, Eq, Structural)]
pub struct CoordinatorState {
    pub stage: Stage,
    pub report: ShutdownReport,
}

impl ShutdownStep {
    /// The step that follows this one, if one does.
    pub open spec fn following(self) -> Option<ShutdownStep> {
        match self {
            ShutdownStep::StopServer => Some(ShutdownStep::UnregisterAdvertiser),
            ShutdownStep::UnregisterAdvertiser => Some(ShutdownStep::JoinServer),
            ShutdownStep::JoinServer => None,
        }
    }

    /// The place of the step in the shutdown, counted from 0.
    pub open spec fn position(self) -> nat {
        match self {
            ShutdownStep::StopServer => 0,
            ShutdownStep::UnregisterAdvertiser => 1,
            ShutdownStep::JoinServer => 2,
        }
    }
}

impl ShutdownReport {
    /// The report before any step has been carried out.
    pub open spec fn nothing_failed() -> ShutdownReport {
        ShutdownReport { stop_server_failed: false, unregister_failed: false, join_failed: false }
    }

    /// Whether `step` is recorded as failed.
    pub open spec fn failed(self, step: ShutdownStep) -> bool {
        match step {
            ShutdownStep::StopServer => self.stop_server_failed,
            ShutdownStep::UnregisterAdvertiser => self.unregister_failed,
            ShutdownStep::JoinServer => self.join_failed,
        }
    }

    /// Whether no step is recorded as failed.
    pub open spec fn clean(self) -> bool {
        !self.stop_server_failed && !self.unregister_failed && !self.join_failed
    }

    /// The report with the outcome of `step` added. A failure stays recorded.
    pub open spec fn with_outcome(self, step: ShutdownStep, succeeded: bool) -> ShutdownReport {
        match step {
            ShutdownStep::StopServer => ShutdownReport {
                stop_server_failed: self.stop_server_failed || !succeeded,
                ..self
            },
            ShutdownStep::UnregisterAdvertiser => ShutdownReport {
                unregister_failed: self.unregister_failed || !succeeded,
                ..self
            },
            ShutdownStep::JoinServer => ShutdownReport {
                join_failed: self.join_failed || !succeeded,
                ..self
            },
        }
    }

    /// Whether `step` is recorded as failed.
    pub fn has_failed(&self, step: ShutdownStep) -> (r: bool)
        ensures
            r == self.failed(step),
    {
        match step {
            ShutdownStep::StopServer => self.stop_server_failed,
            ShutdownStep::UnregisterAdvertiser => self.unregister_failed,
            ShutdownStep::JoinServer => self.join_failed,
        }
    }

    /// Whether no step is recorded as failed.
    pub fn is_clean(&self) -> (r: bool)
        ensures
            r == self.clean(),
    {
        !self.stop_server_failed && !self.unregister_failed && !self.join_failed
    }
}

impl Stage {
    /// How far the stage lies from the start: 0 while polling, then one more
    /// for each step that has been asked for, and 4 at the end.
    pub open spec fn depth(self) -> nat {
        match self {
            Stage::Polling => 0,
            Stage::Awaiting(step) => step.position() + 1,
            Stage::Finished => 4,
        }
    }
}

impl CoordinatorState {
    /// The state in which the coordinator starts.
    pub open spec fn initial() -> CoordinatorState {
        CoordinatorState { stage: Stage::Polling, report: ShutdownReport::nothing_failed() }
    }

    /// The phase of the lifecycle. With a failed step the end of the shutdown
    /// is reached in the phase `Stopping`.
    pub open spec fn phase(self) -> Phase {
        match self.stage {
            Stage::Polling => Phase::Running,
            Stage::Awaiting(_) => Phase::Stopping,
            Stage::Finished => if self.report.clean() {
                Phase::Stopped
            } else {
                Phase::Stopping
            },
        }
    }

    /// The state after `event`, and the action that the event calls for. An
    /// event that the coordinator is not waiting for changes nothing and
    /// calls for nothing.
    pub open spec fn transition(self, event: Event) -> (CoordinatorState, Option<Action>) {
        match (self.stage, event) {
            (Stage::Polling, Event::FlagRead { raised }) => if raised {
                (
                    CoordinatorState { stage: Stage::Awaiting(ShutdownStep::StopServer), ..self },
                    Some(Action::Perform(ShutdownStep::StopServer)),
                )
            } else {
                (self, Some(Action::Poll { after_millis: POLL_INTERVAL_MILLIS }))
            },
            (Stage::Awaiting(awaited), Event::StepFinished { step, succeeded }) => if step
                == awaited {
                let report = self.report.with_outcome(step, succeeded);
                match step.following() {
                    Some(next) => (
                        CoordinatorState { stage: Stage::Awaiting(next), report },
                        Some(Action::Perform(next)),
                    ),
                    None => (
                        CoordinatorState { stage: Stage::Finished, report },
                        Some(Action::Exit { clean: report.clean() }),
                    ),
                }
            } else {
                (self, None)
            },
            _ => (self, None),
        }
    }
}

/// Whether an event called for the abort flag to be read.
pub open spec fn asks_to_poll(action: Option<Action>) -> bool {
    action is Some && action->Some_0 is Poll
}

/// Whether an event called for the exit.
pub open spec fn asks_to_exit(action: Option<Action>) -> bool {
    action is Some && action->Some_0 is Exit
}

/// The action with which the coordinator starts: read the abort flag at once.
pub open spec fn first_action() -> Action {
    Action::Poll { after_millis: 0 }
}

/// The state of a coordinator that has been given `events`, in order, since
/// its start.
pub open spec fn state_after(events: Seq<Event>) -> CoordinatorState
    decreases events.len(),
{
    if events.len() == 0 {
        CoordinatorState::initial()
    } else {
        state_after(events.drop_last()).transition(events.last()).0
    }
}

/// The action that the event at index `i` of `events` called for.
pub open spec fn action_at(events: Seq<Event>, i: int) -> Option<Action> {
    state_after(events.take(i)).transition(events[i]).1
}

/// The coordinator of one run of the feed.
pub struct Coordinator {
    state: CoordinatorState,
}

impl View for Coordinator {
    type V = CoordinatorState;

    closed spec fn view(&self) -> CoordinatorState {
        self.state
    }
}

fn next_step(step: ShutdownStep) -> (r: Option<ShutdownStep>)
    ensures
        r == step.following(),
{
    match step {
        ShutdownStep::StopServer => Some(ShutdownStep::UnregisterAdvertiser),
        ShutdownStep::UnregisterAdvertiser => Some(ShutdownStep::JoinServer),
        ShutdownStep::JoinServer => None,
    }
}

fn record(report: ShutdownReport, step: ShutdownStep, succeeded: bool) -> (r: ShutdownReport)
    ensures
        r == report.with_outcome(step, succeeded),
{
    match step {
        ShutdownStep::StopServer => ShutdownReport {
            stop_server_failed: report.stop_server_failed || !succeeded,
            ..report
        },
        ShutdownStep::UnregisterAdvertiser => ShutdownReport {
            unregister_failed: report.unregister_failed || !succeeded,
            ..report
        },
        ShutdownStep::JoinServer => ShutdownReport {
            join_failed: report.join_failed || !succeeded,
            ..report
        },
    }
}

impl Coordinator {
    /// Starts coordinating a feed whose advertiser and server are up. Returns
    /// the coordinator and the first action to carry out.
    pub fn start() -> (r: (Coordinator, Action))
        ensures
            r.0@ == CoordinatorState::initial(),
            r.1 == first_action(),
    {
        let state = CoordinatorState {
            stage: Stage::Polling,
            report: ShutdownReport {
                stop_server_failed: false,
                unregister_failed: false,
                join_failed: false,
            },
        };
        (Coordinator { state }, Action::Poll { after_millis: 0 })
    }

    /// The phase of the lifecycle.
    pub fn phase(&self) -> (r: Phase)
        ensures
            r == self@.phase(),
    {
        match self.state.stage {
            Stage::Polling => Phase::Running,
            Stage::Awaiting(_) => Phase::Stopping,
            Stage::Finished => {
                if self.state.report.is_clean() {
                    Phase::Stopped
                } else {
                    Phase::Stopping
                }
            },
        }
    }

    /// What the coordinator is waiting for.
    pub fn stage(&self) -> (r: Stage)
        ensures
            r == self@.stage,
    {
        self.state.stage
    }

    /// Which steps of the shutdown have failed so far.
    pub fn report(&self) -> (r: ShutdownReport)
        ensures
            r == self@.report,
    {
        self.state.report
    }

    /// Takes an event and returns the action that it calls for, if any.
    pub fn handle(&mut self, event: Event) -> (r: Option<Action>)
        ensures
            (final(self)@, r) == old(self)@.transition(event),
    {
        match (self.state.stage, event) {
            (Stage::Polling, Event::FlagRead { raised }) => {
                if raised {
                    self.state.stage = Stage::Awaiting(ShutdownStep::StopServer);
                    Some(Action::Perform(ShutdownStep::StopServer))
                } else {
                    Some(Action::Poll { after_millis: POLL_INTERVAL_MILLIS })
                }
            },
            (Stage::Awaiting(awaited), Event::StepFinished { step, succeeded }) => {
                if step == awaited {
                    let report = record(self.state.report, step, succeeded);
                    self.state.report = report;
                    match next_step(step) {
                        Some(next) => {
                            self.state.stage = Stage::Awaiting(next);
                            Some(Action::Perform(next))
                        },
                        None => {
                            self.state.stage = Stage::Finished;
                            Some(Action::Exit { clean: report.is_clean() })
                        },
                    }
                } else {
                    None
                }
            },
            _ => None,
        }
    }
}

/// Gives `events`, in order, to a coordinator that has just started, and
/// returns the coordinator with what each event called for.
pub fn replay(events: &Vec<Event>) -> (r: (Coordinator, Vec<Option<Action>>))
    ensures
        r.0@ == state_after(events@),
        r.1.len() == events.len(),
        forall|i: int| 0 <= i < events.len() ==> r.1[i] == action_at(events@, i),
{
    let (mut coordinator, _) = Coordinator::start();
    let mut actions: Vec<Option<Action>> = Vec::new();
    let mut n: usize = 0;
    assert(events@.take(0) =~= Seq::<Event>::empty());
    while n < events.len()
        invariant
            n <= events.len(),
            actions.len() == n,
            coordinator@ == state_after(events@.take(n as int)),
            forall|i: int| 0 <= i < n ==> actions[i] == action_at(events@, i),
        decreases events.len() - n,
    {
        proof {
            lemma_state_after_next(events@, n as int);
        }
        let action = coordinator.handle(events[n]);
        actions.push(action);
        n += 1;
    }
    assert(events@.take(events.len() as int) =~= events@);
    (coordinator, actions)
}

impl Phase {
    /// The place of the phase in the lifecycle, counted from 0.
    pub open spec fn rank(self) -> nat {
        match self {
            Phase::Running => 0,
            Phase::Stopping => 1,
            Phase::Stopped => 2,
        }
    }
}

/// What one event can do: it moves the coordinator on by one stage and calls
/// for the action of that move, or it leaves the stage as it was.
proof fn lemma_transition_advances(state: CoordinatorState, event: Event)
    ensures
        ({
            let (next, action) = state.transition(event);
            let before = state.stage.depth();
            let after = next.stage.depth();
            &&& before <= after <= before + 1
            &&& before == 4 ==> next == state && action is None
            &&& action is None ==> next == state
            &&& asks_to_poll(action) ==> next == state && before == 0
            &&& forall|step: ShutdownStep|
                action == Some(Action::Perform(step)) ==> before == step.position() && next.stage
                    == Stage::Awaiting(step)
            &&& asks_to_exit(action) ==> before == 3 && after == 4 && action == Some(
                Action::Exit { clean: next.report.clean() },
            ) && event is StepFinished && event->step == ShutdownStep::JoinServer
            &&& after == before + 1 ==> action is Some && !asks_to_poll(action)
            &&& after == before + 1 && after <= 3 ==> exists|step: ShutdownStep|
                action == Some(Action::Perform(step)) && step.position() == before
            &&& event is FlagRead && before > 0 ==> action is None
        }),
{
}

/// The state after one more event is the transition from the state before it.
proof fn lemma_state_after_next(events: Seq<Event>, i: int)
    requires
        0 <= i < events.len(),
    ensures
        state_after(events.take(i + 1)) == state_after(events.take(i)).transition(events[i]).0,
{
    assert(events.take(i + 1).drop_last() =~= events.take(i));
}

/// The coordinator never falls back to an earlier stage.
proof fn lemma_depth_monotone(events: Seq<Event>, i: int, j: int)
    requires
        0 <= i <= j <= events.len(),
    ensures
        state_after(events.take(i)).stage.depth() <= state_after(events.take(j)).stage.depth(),
    decreases j - i,
{
    if i < j {
        lemma_depth_monotone(events, i, j - 1);
        lemma_state_after_next(events, j - 1);
        lemma_transition_advances(state_after(events.take(j - 1)), events[j - 1]);
    }
}

/// A stage that has been reached was entered by some event.
proof fn lemma_stage_was_entered(events: Seq<Event>, n: int, depth: nat) -> (i: int)
    requires
        0 <= n <= events.len(),
        1 <= depth <= state_after(events.take(n)).stage.depth(),
    ensures
        0 <= i < n,
        state_after(events.take(i)).stage.depth() == depth - 1,
        state_after(events.take(i + 1)).stage.depth() == depth,
    decreases n,
{
    if n == 0 {
        assert(events.take(0) =~= Seq::<Event>::empty());
        0
    } else {
        lemma_state_after_next(events, n - 1);
        lemma_transition_advances(state_after(events.take(n - 1)), events[n - 1]);
        if state_after(events.take(n - 1)).stage.depth() >= depth {
            lemma_stage_was_entered(events, n - 1, depth)
        } else {
            n - 1
        }
    }
}

/// Ordered shutdown. A step of the shutdown is called for only after every
/// step that stands before it has been called for: the server is told to stop
/// before the service is unregistered, and the service is unregistered before
/// the server's worker is joined.
pub proof fn law_step_follows_earlier_steps(
    events: Seq<Event>,
    j: int,
    step: ShutdownStep,
    earlier: ShutdownStep,
) -> (i: int)
    requires
        0 <= j < events.len(),
        action_at(events, j) == Some(Action::Perform(step)),
        earlier.position() < step.position(),
    ensures
        0 <= i < j,
        action_at(events, i) == Some(Action::Perform(earlier)),
{
    lemma_transition_advances(state_after(events.take(j)), events[j]);
    let i = lemma_stage_was_entered(events, j, earlier.position() + 1);
    lemma_state_after_next(events, i);
    lemma_transition_advances(state_after(events.take(i)), events[i]);
    i
}

/// Ordered shutdown, the other way round: of two steps that are called for,
/// the one that stands first in the shutdown is called for first.
pub proof fn law_steps_in_order(events: Seq<Event>, i: int, j: int)
    requires
        0 <= i < events.len(),
        0 <= j < events.len(),
        action_at(events, i) matches Some(Action::Perform(first)) && action_at(events, j)
            matches Some(Action::Perform(second)) && first.position() < second.position(),
    ensures
        i < j,
{
    lemma_transition_advances(state_after(events.take(i)), events[i]);
    lemma_transition_advances(state_after(events.take(j)), events[j]);
    if j <= i {
        lemma_depth_monotone(events, j, i);
    }
}

/// The end follows the join. The coordinator calls for the exit only on the
/// report that the server's worker has been joined, and by then each of the
/// three steps has been called for.
pub proof fn law_exit_follows_every_step(events: Seq<Event>, k: int, step: ShutdownStep) -> (i: int)
    requires
        0 <= k < events.len(),
        asks_to_exit(action_at(events, k)),
    ensures
        events[k] is StepFinished && events[k]->step == ShutdownStep::JoinServer,
        0 <= i < k,
        action_at(events, i) == Some(Action::Perform(step)),
{
    lemma_transition_advances(state_after(events.take(k)), events[k]);
    let i = lemma_stage_was_entered(events, k, step.position() + 1);
    lemma_state_after_next(events, i);
    lemma_transition_advances(state_after(events.take(i)), events[i]);
    i
}

/// At most once. Whatever is reported to the coordinator, and however often,
/// it calls for each step of the shutdown at most once, and for the exit at
/// most once. So the stop channel is sent on at most once.
pub proof fn law_called_for_at_most_once(events: Seq<Event>, i: int, j: int)
    requires
        0 <= i < events.len(),
        0 <= j < events.len(),
        action_at(events, i) is Some,
        !asks_to_poll(action_at(events, i)),
        action_at(events, j) == action_at(events, i) || (asks_to_exit(action_at(events, i))
            && asks_to_exit(action_at(events, j))),
    ensures
        i == j,
{
    lemma_transition_advances(state_after(events.take(i)), events[i]);
    lemma_transition_advances(state_after(events.take(j)), events[j]);
    lemma_state_after_next(events, i);
    lemma_state_after_next(events, j);
    if i < j {
        lemma_depth_monotone(events, i + 1, j);
    }
    if j < i {
        lemma_depth_monotone(events, j + 1, i);
    }
}

/// The abort flag is a latch. Once the flag has been reported as raised, the
/// coordinator is never again in the phase `Running`, never again calls for
/// the flag to be read, and disregards whatever is reported of the flag.
pub proof fn law_raised_flag_stays_raised(events: Seq<Event>, i: int, j: int)
    requires
        0 <= i < j < events.len(),
        events[i] == (Event::FlagRead { raised: true }),
    ensures
        state_after(events.take(j)).phase() != Phase::Running,
        !asks_to_poll(action_at(events, j)),
        events[j] is FlagRead ==> action_at(events, j) is None && state_after(events.take(j + 1))
            == state_after(events.take(j)),
{
    lemma_transition_advances(state_after(events.take(i)), events[i]);
    lemma_state_after_next(events, i);
    lemma_depth_monotone(events, i + 1, j);
    lemma_transition_advances(state_after(events.take(j)), events[j]);
    lemma_state_after_next(events, j);
}

/// The lifecycle only moves forward: from `Running` to `Stopping` to
/// `Stopped`, and never back.
pub proof fn law_phase_never_goes_back(events: Seq<Event>, i: int, j: int)
    requires
        0 <= i <= j <= events.len(),
    ensures
        state_after(events.take(i)).phase().rank() <= state_after(events.take(j)).phase().rank(),
    decreases j - i,
{
    if i < j {
        law_phase_never_goes_back(events, i, j - 1);
        lemma_state_after_next(events, j - 1);
        lemma_transition_advances(state_after(events.take(j - 1)), events[j - 1]);
    }
}

/// Once all three steps have been carried out nothing changes any more, and
/// nothing is called for.
pub proof fn law_end_is_final(events: Seq<Event>, i: int, j: int)
    requires
        0 <= i <= j <= events.len(),
        state_after(events.take(i)).stage is Finished,
    ensures
        state_after(events.take(j)) == state_after(events.take(i)),
        j < events.len() ==> action_at(events, j) is None,
    decreases j - i,
{
    if i < j {
        law_end_is_final(events, i, j - 1);
        lemma_state_after_next(events, j - 1);
        lemma_transition_advances(state_after(events.take(j - 1)), events[j - 1]);
    }
    if j < events.len() {
        lemma_transition_advances(state_after(events.take(j)), events[j]);
    }
}

} // verus!
