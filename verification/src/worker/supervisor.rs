//! The supervisor: it checks the connection, hands the player to the threads
//! that share it, and starts over when they have ended.

use crate::worker::timeouts::Timeout;
use vstd::prelude::*;

verus! {

/// How long the supervisor waits before it starts over.
pub const RESTART_WAIT_SECS: u64 = 1;

/// How long a thread waits for the other one to confirm that it has the player.
pub const CONFIRMATION_TIMEOUT_SECS: u64 = 3;

/// What to do to check the connection.
#[derive(Clone, Copy, Debug, PartialEq, Eq, Structural)]
pub enum CheckStep {
    Reconnect,
    /// Drop the requests that are waiting: they may no longer matter.
    DropRequests,
    /// Tell the application; it does not matter whether it listens.
    SendReconnected,
    SetReadTimeout { timeout: Timeout },
    SetWriteTimeout { timeout: Timeout },
    Concluded { connected: bool },
}

impl CheckStep {
    /// How the check begins: a new player is connected already.
    pub open spec fn first(first_loop: bool) -> CheckStep {
        if first_loop {
            CheckStep::Concluded { connected: true }
        } else {
            CheckStep::Reconnect
        }
    }

    /// What comes after this step, which succeeded or not.
    pub open spec fn after(self, ok: bool) -> CheckStep {
        match self {
            CheckStep::Reconnect if ok => CheckStep::DropRequests,
            CheckStep::DropRequests => CheckStep::SendReconnected,
            CheckStep::SendReconnected => CheckStep::SetReadTimeout { timeout: Timeout::Read },
            CheckStep::SetReadTimeout { .. } if ok => CheckStep::SetWriteTimeout {
                timeout: Timeout::Write,
            },
            CheckStep::SetWriteTimeout { .. } => CheckStep::Concluded { connected: ok },
            CheckStep::Concluded { .. } => self,
            _ => CheckStep::Concluded { connected: false },
        }
    }

    pub fn begin(first_loop: bool) -> (r: CheckStep)
        ensures
            r == CheckStep::first(first_loop),
    {
        if first_loop {
            CheckStep::Concluded { connected: true }
        } else {
            CheckStep::Reconnect
        }
    }

    pub fn next(self, ok: bool) -> (r: CheckStep)
        ensures
            r == self.after(ok),
    {
        match self {
            CheckStep::Reconnect => if ok {
                CheckStep::DropRequests
            } else {
                CheckStep::Concluded { connected: false }
            },
            CheckStep::DropRequests => CheckStep::SendReconnected,
            CheckStep::SendReconnected => CheckStep::SetReadTimeout { timeout: Timeout::Read },
            CheckStep::SetReadTimeout { .. } => if ok {
                CheckStep::SetWriteTimeout { timeout: Timeout::Write }
            } else {
                CheckStep::Concluded { connected: false }
            },
            CheckStep::SetWriteTimeout { .. } => CheckStep::Concluded { connected: ok },
            CheckStep::Concluded { connected } => CheckStep::Concluded { connected },
        }
    }
}

/// What the supervisor does now.
#[derive(Clone, Copy, Debug, PartialEq, Eq, Structural)]
pub enum SupervisorStep {
    /// Put the new player into the return channel.
    HandIn,
    MarkHealthy { first_loop: bool },
    /// Drop confirmations that nobody waited for.
    DropConfirmations { first_loop: bool },
    /// Take the player out of the return channel.
    TakePlayer { first_loop: bool },
    Check(CheckStep),
    GetBreakHandle,
    SpawnIdle,
    /// Put the player into the return channel, for the idle thread.
    SendPlayer,
    /// Wait until the idle thread confirms that it has the player.
    AwaitConfirmation,
    SpawnWork,
    JoinThreads,
    /// Put the player back into the return channel.
    ReturnPlayer,
    SendLostConnection,
    /// Wait for `secs`.
    Pause { secs: u64 },
    End,
}

impl SupervisorStep {
    /// What to do at this point of the check.
    pub open spec fn checking(check: CheckStep) -> SupervisorStep {
        match check {
            CheckStep::Concluded { connected } => if connected {
                SupervisorStep::GetBreakHandle
            } else {
                SupervisorStep::ReturnPlayer
            },
            _ => SupervisorStep::Check(check),
        }
    }

    /// The program cannot go on when this step fails.
    pub open spec fn must_succeed(self) -> bool {
        match self {
            SupervisorStep::HandIn | SupervisorStep::GetBreakHandle | SupervisorStep::SpawnIdle
            | SupervisorStep::SpawnWork | SupervisorStep::JoinThreads
            | SupervisorStep::ReturnPlayer => true,
            _ => false,
        }
    }

    /// What comes after this step, which succeeded or not.
    pub open spec fn after(self, ok: bool) -> SupervisorStep {
        match self {
            SupervisorStep::HandIn => SupervisorStep::MarkHealthy { first_loop: true },
            SupervisorStep::MarkHealthy { first_loop } => SupervisorStep::DropConfirmations {
                first_loop,
            },
            SupervisorStep::DropConfirmations { first_loop } => SupervisorStep::TakePlayer {
                first_loop,
            },
            SupervisorStep::TakePlayer { first_loop } if ok => Self::checking(
                CheckStep::first(first_loop),
            ),
            SupervisorStep::Check(check) => Self::checking(check.after(ok)),
            SupervisorStep::GetBreakHandle => SupervisorStep::SpawnIdle,
            SupervisorStep::SpawnIdle => SupervisorStep::SendPlayer,
            SupervisorStep::SendPlayer => SupervisorStep::AwaitConfirmation,
            SupervisorStep::AwaitConfirmation if ok => SupervisorStep::SpawnWork,
            SupervisorStep::SpawnWork => SupervisorStep::JoinThreads,
            SupervisorStep::JoinThreads => SupervisorStep::SendLostConnection,
            SupervisorStep::ReturnPlayer => SupervisorStep::SendLostConnection,
            SupervisorStep::SendLostConnection => SupervisorStep::Pause {
                secs: RESTART_WAIT_SECS,
            },
            SupervisorStep::Pause { .. } => SupervisorStep::MarkHealthy { first_loop: false },
            _ => SupervisorStep::End,
        }
    }

    fn check(check: CheckStep) -> (r: SupervisorStep)
        ensures
            r == Self::checking(check),
    {
        match check {
            CheckStep::Concluded { connected: true } => SupervisorStep::GetBreakHandle,
            CheckStep::Concluded { connected: false } => SupervisorStep::ReturnPlayer,
            _ => SupervisorStep::Check(check),
        }
    }

    pub fn begin() -> (r: SupervisorStep)
        ensures
            r is HandIn,
    {
        SupervisorStep::HandIn
    }

    pub fn next(self, ok: bool) -> (r: SupervisorStep)
        requires
            self.must_succeed() ==> ok,
        ensures
            r == self.after(ok),
    {
        match self {
            SupervisorStep::HandIn => SupervisorStep::MarkHealthy { first_loop: true },
            SupervisorStep::MarkHealthy { first_loop } => SupervisorStep::DropConfirmations {
                first_loop,
            },
            SupervisorStep::DropConfirmations { first_loop } => SupervisorStep::TakePlayer {
                first_loop,
            },
            SupervisorStep::TakePlayer { first_loop } => if ok {
                Self::check(CheckStep::begin(first_loop))
            } else {
                SupervisorStep::End
            },
            SupervisorStep::Check(check) => Self::check(check.next(ok)),
            SupervisorStep::GetBreakHandle => SupervisorStep::SpawnIdle,
            SupervisorStep::SpawnIdle => SupervisorStep::SendPlayer,
            SupervisorStep::SendPlayer => SupervisorStep::AwaitConfirmation,
            SupervisorStep::AwaitConfirmation => if ok {
                SupervisorStep::SpawnWork
            } else {
                SupervisorStep::End
            },
            SupervisorStep::SpawnWork => SupervisorStep::JoinThreads,
            SupervisorStep::JoinThreads => SupervisorStep::SendLostConnection,
            SupervisorStep::ReturnPlayer => SupervisorStep::SendLostConnection,
            SupervisorStep::SendLostConnection => SupervisorStep::Pause {
                secs: RESTART_WAIT_SECS,
            },
            SupervisorStep::Pause { .. } => SupervisorStep::MarkHealthy { first_loop: false },
            SupervisorStep::End => SupervisorStep::End,
        }
    }

    /// The supervisor holds the player.
    pub open spec fn holds_player(self) -> bool {
        match self {
            SupervisorStep::HandIn | SupervisorStep::Check(_) | SupervisorStep::GetBreakHandle
            | SupervisorStep::SpawnIdle | SupervisorStep::SendPlayer
            | SupervisorStep::ReturnPlayer => true,
            _ => false,
        }
    }

    /// The step takes the player out of the return channel.
    pub open spec fn takes_player(self, ok: bool) -> bool {
        self is TakePlayer && ok
    }

    /// The step puts the player into the return channel.
    pub open spec fn gives_player(self, ok: bool) -> bool {
        ok && (self is HandIn || self is SendPlayer || self is ReturnPlayer)
    }

    /// This is the first round, or before it.
    pub open spec fn is_first_loop(self) -> bool {
        match self {
            SupervisorStep::HandIn => true,
            SupervisorStep::MarkHealthy { first_loop } => first_loop,
            SupervisorStep::DropConfirmations { first_loop } => first_loop,
            SupervisorStep::TakePlayer { first_loop } => first_loop,
            _ => false,
        }
    }
}

/// After the first round the player counts as connected exactly if it
/// reconnects and takes both timeouts, whether or not the application hears of it.
pub proof fn law_connected_means_ready(
    reconnected: bool,
    dropped: bool,
    told: bool,
    read_timeout_set: bool,
    write_timeout_set: bool,
)
    ensures
        CheckStep::first(true) == (CheckStep::Concluded { connected: true }),
        CheckStep::first(false).after(reconnected).after(dropped).after(told).after(
            read_timeout_set,
        ).after(write_timeout_set) == (CheckStep::Concluded {
            connected: reconnected && read_timeout_set && write_timeout_set,
        }),
{
}

/// Only the first round goes without a check: no step leads back to it, and
/// in every other round a player that is taken is asked to reconnect.
pub proof fn law_every_later_round_reconnects(step: SupervisorStep, ok: bool)
    requires
        !step.is_first_loop(),
    ensures
        !step.after(ok).is_first_loop(),
        step.takes_player(ok) ==> step.after(ok) == SupervisorStep::Check(CheckStep::Reconnect),
{
}

/// `steps` is a round: it begins with a healthy connection, and goes on until the
/// supervisor pauses before the next round, or ends. `oks` tells how its steps went.
pub open spec fn is_round(steps: Seq<SupervisorStep>, oks: Seq<bool>) -> bool {
    &&& steps.len() == oks.len() + 1
    &&& steps[0] is MarkHealthy
    &&& steps.last() is Pause || steps.last() is End
    &&& forall|i: int| 0 <= i < oks.len() ==> #[trigger] goes_on_at(steps, oks, i)
}

/// The round goes on after its step `i`.
pub open spec fn goes_on_at(steps: Seq<SupervisorStep>, oks: Seq<bool>, i: int) -> bool {
    &&& steps[i] !is Pause
    &&& steps[i] !is End
    &&& steps[i + 1] == steps[i].after(oks[i])
}

/// A round tells the application exactly once that the connection was lost, as
/// the last thing before the pause; one after which the supervisor ends does not.
pub proof fn law_every_round_tells_of_the_lost_connection(
    steps: Seq<SupervisorStep>,
    oks: Seq<bool>,
)
    requires
        is_round(steps, oks),
    ensures
        steps.last() is Pause ==> steps.len() > 1 && steps[steps.len() - 2] is SendLostConnection,
        steps.last() is Pause ==> forall|i: int|
            0 <= i < steps.len() && #[trigger] steps[i] is SendLostConnection ==> i == steps.len()
                - 2,
        steps.last() is End ==> forall|i: int|
            0 <= i < steps.len() ==> #[trigger] steps[i] !is SendLostConnection,
{
    if steps.last() is Pause {
        assert(goes_on_at(steps, oks, steps.len() - 2));
    }
    assert forall|i: int| 0 <= i < steps.len() && #[trigger] steps[i] is SendLostConnection implies i
        == steps.len() - 2 && steps.last() is Pause by {
        assert(goes_on_at(steps, oks, i));
        if i + 1 < oks.len() {
            assert(goes_on_at(steps, oks, i + 1));
        }
    }
}

/// The supervisor has the player exactly when it has taken it and not yet
/// given it back.
pub proof fn law_supervisor_accounts_for_the_player(step: SupervisorStep, ok: bool)
    requires
        step.must_succeed() || step is SendPlayer ==> ok,
    ensures
        step.takes_player(ok) ==> !step.holds_player() && step.after(ok).holds_player(),
        step.gives_player(ok) ==> step.holds_player() && !step.after(ok).holds_player(),
        !step.takes_player(ok) && !step.gives_player(ok) ==> step.after(ok).holds_player()
            == step.holds_player(),
{
}

} // verus!
