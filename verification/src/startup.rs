//! Bringing the feed up. The parts are started one after the other; the first
//! one that fails ends the start, and nothing is tried again.

use vstd::prelude::*;

verus! {

/// The parts that are brought up before the feed runs, in their order.
#[derive(Clone, Copy, Debug, PartialEq, Eq, Structural)]
pub enum SetupStep {
    /// Install the handler that raises the abort flag on an interrupt.
    InstallInterruptHandler,
    /// Create the discovery daemon.
    CreateDaemon,
    /// Register the feed's service with the daemon.
    RegisterService,
    /// Bind the HTTP server's listener.
    BindServer,
}

/// Why the feed could not be brought up.
#[derive(Clone, Copy, Debug, PartialEq, Eq, Structural)]
pub enum SetupError {
    InterruptHandler,
    DaemonCreation,
    Registration,
    Bind,
}

/// What to do once a step has been tried.
#[derive(Clone, Copy, Debug, PartialEq, Eq, Structural)]
pub enum SetupDecision {
    /// Go on with this step.
    Perform(SetupStep),
    /// Every part is up: the feed runs.
    Run,
    /// Give up with this error.
    Abort(SetupError),
}

impl SetupStep {
    /// The place of the step in the start, counted from 0.
    pub open spec fn position(self) -> nat {
        match self {
            SetupStep::InstallInterruptHandler => 0,
            SetupStep::CreateDaemon => 1,
            SetupStep::RegisterService => 2,
            SetupStep::BindServer => 3,
        }
    }
}

/// The step at a place of the start, counted from 0. The last step stands for
/// every place from its own on.
pub open spec fn step_at(position: int) -> SetupStep {
    if position <= 0 {
        SetupStep::InstallInterruptHandler
    } else if position == 1 {
        SetupStep::CreateDaemon
    } else if position == 2 {
        SetupStep::RegisterService
    } else {
        SetupStep::BindServer
    }
}

/// The error that a failed step stands for.
pub open spec fn error_of(step: SetupStep) -> SetupError {
    match step {
        SetupStep::InstallInterruptHandler => SetupError::InterruptHandler,
        SetupStep::CreateDaemon => SetupError::DaemonCreation,
        SetupStep::RegisterService => SetupError::Registration,
        SetupStep::BindServer => SetupError::Bind,
    }
}

/// The step that follows a step, if one does.
pub open spec fn following(step: SetupStep) -> Option<SetupStep> {
    match step {
        SetupStep::InstallInterruptHandler => Some(SetupStep::CreateDaemon),
        SetupStep::CreateDaemon => Some(SetupStep::RegisterService),
        SetupStep::RegisterService => Some(SetupStep::BindServer),
        SetupStep::BindServer => None,
    }
}

/// The decision after `step` has been tried: a failure aborts, a success
/// leads to the following step, and after the last one the feed runs.
pub open spec fn decision_after(step: SetupStep, succeeded: bool) -> SetupDecision {
    if !succeeded {
        SetupDecision::Abort(error_of(step))
    } else {
        match following(step) {
            Some(next) => SetupDecision::Perform(next),
            None => SetupDecision::Run,
        }
    }
}

/// Where the start stands once the steps tried so far have had the outcomes
/// `outcomes`, in order. Outcomes reported after the start has ended change
/// nothing.
pub open spec fn setup_after(outcomes: Seq<bool>) -> SetupDecision
    decreases outcomes.len(),
{
    if outcomes.len() == 0 {
        SetupDecision::Perform(SetupStep::InstallInterruptHandler)
    } else {
        match setup_after(outcomes.drop_last()) {
            SetupDecision::Perform(step) => decision_after(step, outcomes.last()),
            ended => ended,
        }
    }
}

/// The step with which the start begins.
pub fn first_setup_step() -> (r: SetupStep)
    ensures
        SetupDecision::Perform(r) == setup_after(Seq::empty()),
{
    SetupStep::InstallInterruptHandler
}

/// Decides how to go on once `step` has been tried.
pub fn after_setup_step(step: SetupStep, succeeded: bool) -> (r: SetupDecision)
    ensures
        r == decision_after(step, succeeded),
{
    if !succeeded {
        SetupDecision::Abort(
            match step {
                SetupStep::InstallInterruptHandler => SetupError::InterruptHandler,
                SetupStep::CreateDaemon => SetupError::DaemonCreation,
                SetupStep::RegisterService => SetupError::Registration,
                SetupStep::BindServer => SetupError::Bind,
            },
        )
    } else {
        match step {
            SetupStep::InstallInterruptHandler => SetupDecision::Perform(SetupStep::CreateDaemon),
            SetupStep::CreateDaemon => SetupDecision::Perform(SetupStep::RegisterService),
            SetupStep::RegisterService => SetupDecision::Perform(SetupStep::BindServer),
            SetupStep::BindServer => SetupDecision::Run,
        }
    }
}

impl SetupError {
    /// The message with which the start is given up.
    pub fn message(&self) -> (r: &'static str)
        ensures
            r@ == match *self {
                SetupError::InterruptHandler => "unable to set SIGINT handler"@,
                SetupError::DaemonCreation => "Could not create service daemon"@,
                SetupError::Registration => "Failed to register mDNS service"@,
                SetupError::Bind => "Could not bind the HTTP server"@,
            },
    {
        match self {
            SetupError::InterruptHandler => "unable to set SIGINT handler",
            SetupError::DaemonCreation => "Could not create service daemon",
            SetupError::Registration => "Failed to register mDNS service",
            SetupError::Bind => "Could not bind the HTTP server",
        }
    }
}

/// A step is tried only after every step before it has succeeded. So the
/// server's listener is bound only once the interrupt handler is installed,
/// the daemon created and the service registered: if one of them fails, no
/// port is ever bound.
pub proof fn law_step_follows_successes(outcomes: Seq<bool>, step: SetupStep)
    requires
        setup_after(outcomes) == SetupDecision::Perform(step),
    ensures
        outcomes.len() == step.position(),
        forall|k: int| 0 <= k < outcomes.len() ==> outcomes[k],
    decreases outcomes.len(),
{
    if outcomes.len() > 0 {
        let before = setup_after(outcomes.drop_last());
        law_step_follows_successes(outcomes.drop_last(), before->Perform_0);
        assert forall|k: int| 0 <= k < outcomes.len() implies outcomes[k] by {
            if k < outcomes.len() - 1 {
                assert(outcomes.drop_last()[k] == outcomes[k]);
            }
        }
    }
}

/// The feed runs exactly when the four steps have succeeded.
pub proof fn law_runs_after_every_step(outcomes: Seq<bool>)
    ensures
        setup_after(outcomes) == SetupDecision::Run <==> outcomes.len() >= 4 && outcomes[0]
            && outcomes[1] && outcomes[2] && outcomes[3],
    decreases outcomes.len(),
{
    if outcomes.len() > 0 {
        let earlier = outcomes.drop_last();
        law_runs_after_every_step(earlier);
        if setup_after(earlier) is Perform {
            law_step_follows_successes(earlier, setup_after(earlier)->Perform_0);
        }
        if setup_after(earlier) is Abort {
            law_abort_names_first_failure(earlier);
        }
        if earlier.len() >= 4 {
            assert(earlier[0] == outcomes[0] && earlier[1] == outcomes[1] && earlier[2]
                == outcomes[2] && earlier[3] == outcomes[3]);
        }
        if earlier.len() == 3 {
            assert(earlier[0] == outcomes[0] && earlier[1] == outcomes[1] && earlier[2]
                == outcomes[2]);
        }
    }
}

/// The start is given up only on a failure, and with the error of the first
/// step that failed.
pub proof fn law_abort_names_first_failure(outcomes: Seq<bool>) -> (k: int)
    requires
        setup_after(outcomes) is Abort,
    ensures
        0 <= k < outcomes.len(),
        k < 4,
        !outcomes[k],
        forall|m: int| 0 <= m < k ==> outcomes[m],
        setup_after(outcomes) == SetupDecision::Abort(error_of(step_at(k))),
    decreases outcomes.len(),
{
    let earlier = outcomes.drop_last();
    if setup_after(earlier) is Abort {
        let k = law_abort_names_first_failure(earlier);
        assert(earlier[k] == outcomes[k]);
        assert forall|m: int| 0 <= m < k implies outcomes[m] by {
            assert(earlier[m] == outcomes[m]);
        }
        k
    } else {
        let step = setup_after(earlier)->Perform_0;
        law_step_follows_successes(earlier, step);
        let k = outcomes.len() - 1;
        assert forall|m: int| 0 <= m < k implies outcomes[m] by {
            assert(earlier[m] == outcomes[m]);
        }
        k
    }
}

/// Nothing is tried again. Once the start has been given up, or the feed
/// runs, no further outcome changes the decision.
pub proof fn law_end_of_start_is_final(outcomes: Seq<bool>, n: int)
    requires
        0 <= n <= outcomes.len(),
        !(setup_after(outcomes.take(n)) is Perform),
    ensures
        setup_after(outcomes) == setup_after(outcomes.take(n)),
    decreases outcomes.len() - n,
{
    if n < outcomes.len() {
        assert(outcomes.take(n + 1).drop_last() =~= outcomes.take(n));
        law_end_of_start_is_final(outcomes, n + 1);
    } else {
        assert(outcomes.take(n) =~= outcomes);
    }
}

} // verus!
