//! The idle thread: it has the player while there is nothing to do, and
//! listens for events.

use crate::mpd::types::IdleEvent;
use crate::worker::supervisor::CONFIRMATION_TIMEOUT_SECS;
use crate::worker::timeouts::Timeout;
use vstd::prelude::*;

verus! {

/// How an action went that is only tried while the connection is healthy.
#[derive(Clone, Copy, Debug, PartialEq, Eq, Structural)]
pub enum Guarded {
    /// The connection was not healthy: the action was not tried.
    Unhealthy,
    Done,
    Failed,
}

/// What the idle thread does now.
pub enum IdleStep {
    /// Take the player out of the return channel, if healthy.
    TakePlayer,
    /// Set the player's read timeout, if healthy.
    SetReadTimeout { timeout: Timeout },
    /// Confirm within `secs` that the player has arrived, if healthy.
    Confirm { secs: u64 },
    WaitForEvent,
    /// Tell the application of `event`; `rest` comes after it.
    SendEvent { event: IdleEvent, rest: Vec<IdleEvent> },
    /// Put the player into the return channel.
    ReturnPlayer,
    /// Wait for `secs` at most until the other thread confirms that it has the
    /// player, if healthy.
    AwaitConfirmation { secs: u64 },
    /// End: first mark the connection as unhealthy where `mark_unhealthy`,
    /// then put the player into the return channel where `return_player`.
    Stop { mark_unhealthy: bool, return_player: bool },
    Ended,
}

/// How a step of the idle thread went.
pub enum IdleReport {
    Guarded(Guarded),
    Events(Vec<IdleEvent>),
    /// No event came in time; whether the connection is healthy.
    TimedOut { healthy: bool },
    /// Waiting for events failed.
    Broken,
    Sent { ok: bool },
    Done,
}

impl IdleStep {
    /// `report` can tell how this step went.
    pub open spec fn accepts(self, report: IdleReport) -> bool {
        match self {
            IdleStep::TakePlayer | IdleStep::SetReadTimeout { .. } | IdleStep::Confirm { .. }
            | IdleStep::AwaitConfirmation { .. } => report is Guarded,
            IdleStep::WaitForEvent => report is Events || report is TimedOut || report is Broken,
            IdleStep::SendEvent { .. } => report is Sent,
            IdleStep::ReturnPlayer | IdleStep::Stop { .. } => report is Done,
            IdleStep::Ended => false,
        }
    }

    /// The thread has the player.
    pub open spec fn holds_player(self) -> bool {
        match self {
            IdleStep::TakePlayer | IdleStep::AwaitConfirmation { .. } | IdleStep::Ended => false,
            IdleStep::Stop { return_player, .. } => return_player,
            _ => true,
        }
    }

    /// The step, with this report, took the player out of the return channel.
    pub open spec fn takes_player(self, report: IdleReport) -> bool {
        self is TakePlayer && report == IdleReport::Guarded(Guarded::Done)
    }

    /// The step puts the player into the return channel.
    pub open spec fn gives_player(self) -> bool {
        self is ReturnPlayer || (self matches IdleStep::Stop { return_player, .. } && return_player)
    }

    /// The thread has to send these events, in this order, before anything else.
    pub open spec fn sends(self, events: Seq<IdleEvent>) -> bool {
        if events.len() == 0 {
            self is ReturnPlayer
        } else {
            &&& self matches IdleStep::SendEvent { event, rest }
            &&& event == events[0]
            &&& rest@ == events.skip(1)
        }
    }

    /// The thread ends after an action that was not done: a failure makes the
    /// connection unhealthy, and a player that it holds goes back.
    pub open spec fn gives_up(self, g: Guarded, after: IdleStep) -> bool {
        after == (IdleStep::Stop {
            mark_unhealthy: g == Guarded::Failed,
            return_player: self.holds_player(),
        })
    }

    /// What comes after this step.
    pub open spec fn steps(self, report: IdleReport, after: IdleStep) -> bool {
        match (self, report) {
            (IdleStep::TakePlayer, IdleReport::Guarded(Guarded::Done)) => after == (
            IdleStep::SetReadTimeout { timeout: Timeout::IdleRead }),
            (IdleStep::SetReadTimeout { .. }, IdleReport::Guarded(Guarded::Done)) => after == (
            IdleStep::Confirm { secs: CONFIRMATION_TIMEOUT_SECS }),
            (IdleStep::Confirm { .. }, IdleReport::Guarded(Guarded::Done)) => after is WaitForEvent,
            (IdleStep::AwaitConfirmation { .. }, IdleReport::Guarded(Guarded::Done)) => {
                after is TakePlayer
            },
            (_, IdleReport::Guarded(g)) => self.gives_up(g, after),
            (_, IdleReport::Events(events)) => after.sends(events@),
            (_, IdleReport::TimedOut { healthy }) => if healthy {
                after is WaitForEvent
            } else {
                after == (IdleStep::Stop { mark_unhealthy: false, return_player: true })
            },
            (_, IdleReport::Broken) => after == (IdleStep::Stop {
                mark_unhealthy: true,
                return_player: true,
            }),
            (IdleStep::SendEvent { rest, .. }, IdleReport::Sent { ok }) => if ok {
                after.sends(rest@)
            } else {
                after == (IdleStep::Stop { mark_unhealthy: false, return_player: true })
            },
            (IdleStep::ReturnPlayer, _) => after == (IdleStep::AwaitConfirmation {
                secs: CONFIRMATION_TIMEOUT_SECS,
            }),
            _ => after is Ended,
        }
    }

    /// The step is followed by `after`, if it can take the report at all.
    pub open spec fn goes(self, report: IdleReport, after: IdleStep) -> bool {
        self.accepts(report) ==> self.steps(report, after)
    }

    pub fn begin() -> (r: IdleStep)
        ensures
            r is TakePlayer,
    {
        IdleStep::TakePlayer
    }

    /// Whether `report` can tell how this step went.
    pub fn can_take(&self, report: &IdleReport) -> (r: bool)
        ensures
            r == self.accepts(*report),
    {
        match (self, report) {
            (IdleStep::TakePlayer, IdleReport::Guarded(_)) => true,
            (IdleStep::SetReadTimeout { .. }, IdleReport::Guarded(_)) => true,
            (IdleStep::Confirm { .. }, IdleReport::Guarded(_)) => true,
            (IdleStep::AwaitConfirmation { .. }, IdleReport::Guarded(_)) => true,
            (IdleStep::WaitForEvent, IdleReport::Events(_)) => true,
            (IdleStep::WaitForEvent, IdleReport::TimedOut { .. }) => true,
            (IdleStep::WaitForEvent, IdleReport::Broken) => true,
            (IdleStep::SendEvent { .. }, IdleReport::Sent { .. }) => true,
            (IdleStep::ReturnPlayer, IdleReport::Done) => true,
            (IdleStep::Stop { .. }, IdleReport::Done) => true,
            _ => false,
        }
    }

    pub fn next(self, report: IdleReport) -> (r: IdleStep)
        requires
            self.accepts(report),
        ensures
            self.steps(report, r),
    {
        match (self, report) {
            (IdleStep::TakePlayer, IdleReport::Guarded(g)) => match g {
                Guarded::Done => IdleStep::SetReadTimeout { timeout: Timeout::IdleRead },
                _ => give_up(g, false),
            },
            (IdleStep::SetReadTimeout { .. }, IdleReport::Guarded(g)) => match g {
                Guarded::Done => IdleStep::Confirm { secs: CONFIRMATION_TIMEOUT_SECS },
                _ => give_up(g, true),
            },
            (IdleStep::Confirm { .. }, IdleReport::Guarded(g)) => match g {
                Guarded::Done => IdleStep::WaitForEvent,
                _ => give_up(g, true),
            },
            (IdleStep::AwaitConfirmation { .. }, IdleReport::Guarded(g)) => match g {
                Guarded::Done => IdleStep::TakePlayer,
                _ => give_up(g, false),
            },
            (_, IdleReport::Events(events)) => send_all(events),
            (_, IdleReport::TimedOut { healthy }) => if healthy {
                IdleStep::WaitForEvent
            } else {
                IdleStep::Stop { mark_unhealthy: false, return_player: true }
            },
            (_, IdleReport::Broken) => IdleStep::Stop { mark_unhealthy: true, return_player: true },
            (IdleStep::SendEvent { rest, .. }, IdleReport::Sent { ok }) => if ok {
                send_all(rest)
            } else {
                IdleStep::Stop { mark_unhealthy: false, return_player: true }
            },
            (IdleStep::ReturnPlayer, _) => IdleStep::AwaitConfirmation {
                secs: CONFIRMATION_TIMEOUT_SECS,
            },
            _ => IdleStep::Ended,
        }
    }
}

fn give_up(g: Guarded, return_player: bool) -> (r: IdleStep)
    ensures
        r == (IdleStep::Stop { mark_unhealthy: g == Guarded::Failed, return_player }),
{
    let mark_unhealthy = match g {
        Guarded::Failed => true,
        _ => false,
    };
    IdleStep::Stop { mark_unhealthy, return_player }
}

fn send_all(events: Vec<IdleEvent>) -> (r: IdleStep)
    ensures
        r.sends(events@),
{
    let mut rest = events;
    if rest.len() == 0 {
        return IdleStep::ReturnPlayer;
    }
    let event = rest.remove(0);
    assert(rest@ == events@.skip(1));
    IdleStep::SendEvent { event, rest }
}

/// The idle thread has the player exactly when it has taken it and not yet
/// given it back: whatever happens, it never ends with the player in its hands.
pub proof fn law_idle_accounts_for_the_player(step: IdleStep, report: IdleReport, after: IdleStep)
    requires
        step.accepts(report),
        step.steps(report, after),
    ensures
        step.takes_player(report) ==> !step.holds_player() && after.holds_player(),
        step.gives_player() ==> step.holds_player() && !after.holds_player(),
        !step.takes_player(report) && !step.gives_player() ==> after.holds_player()
            == step.holds_player(),
        !(IdleStep::Ended).holds_player(),
{
}

/// Every event reaches the application, in order, as long as it listens.
#[verifier::rlimit(60)]
pub proof fn law_all_events_are_sent(events: Vec<IdleEvent>, steps: Seq<IdleStep>)
    requires
        steps.len() == events@.len() + 1,
        (IdleStep::WaitForEvent).goes(IdleReport::Events(events), steps[0]),
        forall|i: int|
            0 <= i < events@.len() ==> (#[trigger] steps[i]).goes(
                IdleReport::Sent { ok: true },
                steps[i + 1],
            ),
    ensures
        forall|i: int|
            0 <= i < events@.len() ==> (#[trigger] steps[i] matches IdleStep::SendEvent {
                event,
                ..
            } && event == events@[i]),
        steps.last() is ReturnPlayer,
{
    assert forall|i: int| 0 <= i <= events@.len() implies (#[trigger] steps[i]).sends(
        events@.skip(i),
    ) by {
        lemma_sends_at(events@, steps, i);
    }
    assert(steps[events@.len() as int].sends(events@.skip(events@.len() as int)));
}

#[verifier::rlimit(60)]
proof fn lemma_sends_at(events: Seq<IdleEvent>, steps: Seq<IdleStep>, i: int)
    requires
        steps.len() == events.len() + 1,
        steps[0].sends(events),
        forall|i: int|
            0 <= i < events.len() ==> (#[trigger] steps[i]).goes(
                IdleReport::Sent { ok: true },
                steps[i + 1],
            ),
        0 <= i <= events.len(),
    ensures
        steps[i].sends(events.skip(i)),
    decreases i,
{
    if i == 0 {
        assert(events.skip(0) == events);
    } else {
        lemma_sends_at(events, steps, i - 1);
        assert(steps[i - 1].goes(IdleReport::Sent { ok: true }, steps[i - 1 + 1]));
        assert(events.skip(i - 1).skip(1) == events.skip(i));
    }
}

} // verus!
