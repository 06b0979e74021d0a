//! The request thread: it takes the player from the idle thread when there
//! are requests, serves them, and gives it back.

use crate::worker::idle::Guarded;
use crate::worker::request;
use crate::worker::request::{should_skip_request, ClientRequest};
use crate::worker::supervisor::CONFIRMATION_TIMEOUT_SECS;
use crate::worker::timeouts::Timeout;
use std::collections::VecDeque;
use vstd::prelude::*;

verus! {

/// What the request thread does now.
#[derive(Clone, Copy, Debug, PartialEq, Eq, Structural)]
pub enum WorkStep {
    /// Wait for a request, or for the player in the return channel. A request
    /// counts only if the connection is healthy.
    Wait,
    /// Make the idle thread give up the player, if healthy.
    BreakIdle,
    /// Take the player out of the return channel, if healthy.
    TakePlayer,
    /// Confirm within `secs` that the player has arrived, if healthy.
    Confirm { secs: u64 },
    /// Set the player's read timeout, if healthy.
    SetReadTimeout { timeout: Timeout },
    /// Collect the requests that have come in meanwhile.
    Collect,
    /// Serve the current request.
    Handle,
    /// Tell the application what came of a request that was served, if healthy.
    SendSuccess,
    /// Tell the application why a request failed, if healthy.
    SendError,
    /// Reconnect, if healthy.
    Reconnect,
    /// Set the player's write timeout, if healthy.
    SetWriteTimeout { timeout: Timeout },
    /// Replace the handle that breaks idling, if healthy.
    RenewBreakHandle,
    /// Mark the connection as unhealthy where `mark_unhealthy`, then put the
    /// player into the return channel.
    ReturnPlayer { mark_unhealthy: bool },
    /// Wait for `secs` at most until the other thread confirms that it has the
    /// player, if healthy.
    AwaitConfirmation { secs: u64 },
    /// The player came without a request: confirm within `secs` that it has
    /// arrived, if healthy.
    ConfirmUnasked { secs: u64 },
    /// Leave the loop: first mark the connection as unhealthy where
    /// `mark_unhealthy`, then put the player into the return channel where
    /// `return_player`.
    Stop { mark_unhealthy: bool, return_player: bool },
    MarkUnhealthy,
    Ended,
}

/// How serving a request went.
#[derive(Debug)]
pub enum Served<D, E> {
    /// With this result.
    Finished(D),
    TimedOut,
    /// With this error.
    Failed(E),
}

impl<D, E> Served<D, E> {
    /// What `result` means, where `timed_out` tells an error that the player
    /// took too long from others.
    pub open spec fn judged(result: Result<D, E>, timed_out: bool) -> Self {
        match result {
            Ok(done) => Served::Finished(done),
            Err(e) => if timed_out {
                Served::TimedOut
            } else {
                Served::Failed(e)
            },
        }
    }

    /// Judges the result of serving a request; `timed_out` tells whether its
    /// error, if it is one, is that the player took too long.
    pub fn judge(result: Result<D, E>, timed_out: bool) -> (r: Self)
        ensures
            r == Self::judged(result, timed_out),
    {
        match result {
            Ok(done) => Served::Finished(done),
            Err(e) => if timed_out {
                Served::TimedOut
            } else {
                Served::Failed(e)
            },
        }
    }
}

/// How a step of the request thread went.
pub enum WorkReport<Q, C, S, D, E> {
    Guarded(Guarded),
    /// A request came in while the connection was healthy.
    Request(ClientRequest<Q, C, S>),
    /// The player came in; whether the connection is healthy.
    Player { healthy: bool },
    /// The return channel is closed.
    NoPlayer,
    More(Vec<ClientRequest<Q, C, S>>),
    Served(Served<D, E>),
    Done,
}

/// The state of the request thread.
pub struct Worker<Q, C, S, D, E> {
    pub step: WorkStep,
    /// The request that is looked at.
    pub current: Option<ClientRequest<Q, C, S>>,
    /// The requests behind it.
    pub buffer: VecDeque<ClientRequest<Q, C, S>>,
    /// What to tell the application of a request.
    pub result: Option<Result<D, E>>,
}

impl WorkStep {
    /// The thread has the player.
    pub open spec fn holds_player(self) -> bool {
        match self {
            WorkStep::Wait | WorkStep::BreakIdle | WorkStep::TakePlayer
            | WorkStep::AwaitConfirmation { .. } | WorkStep::MarkUnhealthy | WorkStep::Ended => false,
            WorkStep::Stop { return_player, .. } => return_player,
            _ => true,
        }
    }

    /// The step is part of serving the requests.
    pub open spec fn is_serving(self) -> bool {
        match self {
            WorkStep::Collect | WorkStep::Handle | WorkStep::SendSuccess | WorkStep::SendError
            | WorkStep::Reconnect | WorkStep::SetWriteTimeout { .. } | WorkStep::RenewBreakHandle => true,
            _ => false,
        }
    }

    /// The step is only tried while the connection is healthy.
    pub open spec fn is_guarded(self) -> bool {
        match self {
            WorkStep::BreakIdle | WorkStep::TakePlayer | WorkStep::Confirm { .. }
            | WorkStep::SetReadTimeout { .. } | WorkStep::SendSuccess | WorkStep::SendError
            | WorkStep::Reconnect | WorkStep::SetWriteTimeout { .. } | WorkStep::RenewBreakHandle
            | WorkStep::AwaitConfirmation { .. } | WorkStep::ConfirmUnasked { .. } => true,
            _ => false,
        }
    }

    /// What comes after an action that was not done: while requests are
    /// served the player is returned first, elsewhere the thread leaves at once.
    pub open spec fn gives_up(self, g: Guarded) -> WorkStep {
        if self.is_serving() {
            WorkStep::ReturnPlayer { mark_unhealthy: g == Guarded::Failed }
        } else {
            WorkStep::Stop {
                mark_unhealthy: g == Guarded::Failed,
                return_player: self.holds_player(),
            }
        }
    }
}

impl<Q, C, S, D, E> Worker<Q, C, S, D, E> {
    /// There is a current request while the thread decides whether to serve it,
    /// and a result only while the application is told of it.
    pub open spec fn well_formed(self) -> bool {
        &&& self.step is Collect ==> self.current is Some
        &&& self.current is Some ==> self.step is Collect || self.step is Handle
        &&& self.result matches Some(Ok(_)) ==> self.step is SendSuccess
        &&& self.result matches Some(Err(_)) ==> self.step is SendError
    }

    /// The requests that are not served yet, in order.
    pub open spec fn pending(self) -> Seq<ClientRequest<Q, C, S>> {
        match self.current {
            Some(request) => seq![request] + self.buffer@,
            None => self.buffer@,
        }
    }

    /// `report` can tell how the current step went.
    pub open spec fn accepts(self, report: WorkReport<Q, C, S, D, E>) -> bool {
        match report {
            WorkReport::Guarded(g) => {
                ||| self.step.is_guarded() && (g == Guarded::Done ==> self.result is None)
                ||| self.step is Wait && g != Guarded::Done
            },
            WorkReport::Request(_) | WorkReport::Player { .. } | WorkReport::NoPlayer => {
                self.step is Wait
            },
            WorkReport::More(_) => self.step is Collect,
            WorkReport::Served(_) => self.step is Handle && self.current is None,
            WorkReport::Done => self.step is ReturnPlayer || self.step is Stop
                || self.step is MarkUnhealthy,
        }
    }

    /// The requests stay as they are, and there is nothing to tell the application.
    pub open spec fn goes_to(self, step: WorkStep, after: Self) -> bool {
        &&& after.step == step
        &&& after.current == self.current
        &&& after.buffer@ == self.buffer@
        &&& after.result is None
    }

    /// Goes on with the first of `pending`, or returns the player.
    pub open spec fn goes_on_with(pending: Seq<ClientRequest<Q, C, S>>, after: Self) -> bool {
        &&& after.result is None
        &&& if pending.len() == 0 {
            &&& after.step == (WorkStep::ReturnPlayer { mark_unhealthy: false })
            &&& after.current is None
            &&& after.buffer@ == pending
        } else {
            &&& after.step is Collect
            &&& after.current == Some(pending[0])
            &&& after.buffer@ == pending.skip(1)
        }
    }

    /// What comes after the current step; `skipped` tells whether its first
    /// query is replaced by its second.
    pub open spec fn steps<F: Fn(&Q, &Q) -> bool>(
        self,
        report: WorkReport<Q, C, S, D, E>,
        skipped: F,
        after: Self,
    ) -> bool {
        match (self.step, report) {
            (WorkStep::Wait, WorkReport::Request(request)) => {
                &&& after.step is BreakIdle
                &&& after.current == self.current
                &&& after.buffer@ == self.buffer@.push(request)
                &&& after.result is None
            },
            (WorkStep::Wait, WorkReport::Player { healthy }) => if healthy {
                self.goes_to(WorkStep::ConfirmUnasked { secs: CONFIRMATION_TIMEOUT_SECS }, after)
            } else {
                self.goes_to(WorkStep::Stop { mark_unhealthy: false, return_player: true }, after)
            },
            (WorkStep::Wait, WorkReport::NoPlayer) => self.goes_to(
                WorkStep::Stop { mark_unhealthy: true, return_player: false },
                after,
            ),
            (WorkStep::BreakIdle, WorkReport::Guarded(Guarded::Done)) => self.goes_to(
                WorkStep::TakePlayer,
                after,
            ),
            (WorkStep::TakePlayer, WorkReport::Guarded(Guarded::Done)) => self.goes_to(
                WorkStep::Confirm { secs: CONFIRMATION_TIMEOUT_SECS },
                after,
            ),
            (WorkStep::Confirm { .. }, WorkReport::Guarded(Guarded::Done)) => self.goes_to(
                WorkStep::SetReadTimeout { timeout: Timeout::Read },
                after,
            ),
            (WorkStep::SetReadTimeout { .. }, WorkReport::Guarded(Guarded::Done))
            | (WorkStep::SendSuccess, WorkReport::Guarded(Guarded::Done))
            | (WorkStep::SendError, WorkReport::Guarded(Guarded::Done))
            | (WorkStep::RenewBreakHandle, WorkReport::Guarded(Guarded::Done)) => {
                Self::goes_on_with(self.buffer@, after)
            },
            (WorkStep::Collect, WorkReport::More(more)) => {
                let later = self.buffer@ + more@;
                ||| {
                    &&& request::is_superseded(later, self.current->0, skipped, true)
                    &&& Self::goes_on_with(later, after)
                }
                ||| {
                    &&& request::is_superseded(later, self.current->0, skipped, false)
                    &&& after.step is Handle
                    &&& after.current == self.current
                    &&& after.buffer@ == later
                    &&& after.result is None
                }
            },
            (WorkStep::Handle, WorkReport::Served(served)) => {
                &&& after.current == self.current
                &&& after.buffer@ == self.buffer@
                &&& match served {
                    Served::Finished(done) => {
                        &&& after.step is SendSuccess
                        &&& after.result == Some(Ok::<D, E>(done))
                    },
                    Served::TimedOut => after.step is Reconnect && after.result is None,
                    Served::Failed(e) => {
                        &&& after.step is SendError
                        &&& after.result == Some(Err::<D, E>(e))
                    },
                }
            },
            (WorkStep::Reconnect, WorkReport::Guarded(Guarded::Done)) => self.goes_to(
                WorkStep::SetWriteTimeout { timeout: Timeout::Write },
                after,
            ),
            (WorkStep::SetWriteTimeout { .. }, WorkReport::Guarded(Guarded::Done)) => self.goes_to(
                WorkStep::RenewBreakHandle,
                after,
            ),
            (WorkStep::ConfirmUnasked { .. }, WorkReport::Guarded(Guarded::Done)) => self.goes_to(
                WorkStep::ReturnPlayer { mark_unhealthy: false },
                after,
            ),
            (WorkStep::AwaitConfirmation { .. }, WorkReport::Guarded(Guarded::Done)) => self.goes_to(
                WorkStep::Wait,
                after,
            ),
            (step, WorkReport::Guarded(g)) => self.goes_to(step.gives_up(g), after),
            (WorkStep::ReturnPlayer { .. }, WorkReport::Done) => self.goes_to(
                WorkStep::AwaitConfirmation { secs: CONFIRMATION_TIMEOUT_SECS },
                after,
            ),
            (WorkStep::Stop { .. }, WorkReport::Done) => self.goes_to(
                WorkStep::MarkUnhealthy,
                after,
            ),
            (WorkStep::MarkUnhealthy, WorkReport::Done) => self.goes_to(WorkStep::Ended, after),
            _ => false,
        }
    }

    pub fn new() -> (r: Self)
        ensures
            r.well_formed(),
            r.step is Wait,
            r.pending().len() == 0,
    {
        Worker { step: WorkStep::Wait, current: None, buffer: VecDeque::new(), result: None }
    }

    /// Hands out the request to serve.
    pub fn take_request(&mut self) -> (r: Option<ClientRequest<Q, C, S>>)
        requires
            old(self).well_formed(),
        ensures
            final(self).well_formed(),
            final(self).step == old(self).step,
            final(self).buffer == old(self).buffer,
            final(self).result == old(self).result,
            old(self).step is Handle ==> r == old(self).current && final(self).current is None,
            old(self).step !is Handle ==> r is None && *final(self) == *old(self),
    {
        match self.step {
            WorkStep::Handle => {
                let mut request: Option<ClientRequest<Q, C, S>> = None;
                std::mem::swap(&mut self.current, &mut request);
                request
            },
            _ => None,
        }
    }

    /// Hands out what to tell the application.
    pub fn take_result(&mut self) -> (r: Option<Result<D, E>>)
        requires
            old(self).well_formed(),
        ensures
            r == old(self).result,
            final(self).well_formed(),
            final(self).step == old(self).step,
            final(self).current == old(self).current,
            final(self).buffer == old(self).buffer,
            final(self).result is None,
    {
        let mut result: Option<Result<D, E>> = None;
        std::mem::swap(&mut self.result, &mut result);
        result
    }

    /// Whether `report` can tell how the current step went.
    pub fn can_take(&self, report: &WorkReport<Q, C, S, D, E>) -> (r: bool)
        ensures
            r == self.accepts(*report),
    {
        match report {
            WorkReport::Guarded(g) => {
                let done = match g {
                    Guarded::Done => true,
                    _ => false,
                };
                match self.step {
                    WorkStep::BreakIdle | WorkStep::TakePlayer | WorkStep::Confirm { .. }
                    | WorkStep::SetReadTimeout { .. } | WorkStep::SendSuccess | WorkStep::SendError
                    | WorkStep::Reconnect | WorkStep::SetWriteTimeout { .. } | WorkStep::RenewBreakHandle
                    | WorkStep::AwaitConfirmation { .. } | WorkStep::ConfirmUnasked { .. } => {
                        !done || self.result.is_none()
                    },
                    WorkStep::Wait => !done,
                    _ => false,
                }
            },
            WorkReport::Request(_) => self.step == WorkStep::Wait,
            WorkReport::Player { .. } => self.step == WorkStep::Wait,
            WorkReport::NoPlayer => self.step == WorkStep::Wait,
            WorkReport::More(_) => self.step == WorkStep::Collect,
            WorkReport::Served(_) => self.step == WorkStep::Handle && self.current.is_none(),
            WorkReport::Done => match self.step {
                WorkStep::ReturnPlayer { .. } => true,
                WorkStep::Stop { .. } => true,
                WorkStep::MarkUnhealthy => true,
                _ => false,
            },
        }
    }

    fn go_on(&mut self)
        requires
            old(self).current is None,
            old(self).result is None,
        ensures
            Self::goes_on_with(old(self).buffer@, *final(self)),
    {
        match self.buffer.pop_front() {
            Some(request) => {
                self.current = Some(request);
                self.step = WorkStep::Collect;
                assert(self.buffer@ == old(self).buffer@.skip(1));
            },
            None => {
                self.step = WorkStep::ReturnPlayer { mark_unhealthy: false };
            },
        }
    }

    fn collect<F: Fn(&Q, &Q) -> bool>(&mut self, more: Vec<ClientRequest<Q, C, S>>, skipped: &F)
        requires
            old(self).well_formed(),
            old(self).step is Collect,
            forall|q1: &Q, q2: &Q| #[trigger] call_requires(*skipped, (q1, q2)),
        ensures
            old(self).steps(WorkReport::More(more), *skipped, *final(self)),
            final(self).well_formed(),
    {
        let ghost collected = self.buffer@ + more@;
        let mut more = more;
        while more.len() > 0
            invariant
                collected == self.buffer@ + more@,
                self.step == old(self).step,
                self.current == old(self).current,
                self.result == old(self).result,
            decreases more.len(),
        {
            let ghost before = more@;
            let request = more.remove(0);
            self.buffer.push_back(request);
            assert(before == seq![request] + more@);
            assert(collected == self.buffer@ + more@);
        }
        assert(self.buffer@ == collected);
        let mut request: Option<ClientRequest<Q, C, S>> = None;
        std::mem::swap(&mut self.current, &mut request);
        if let Some(request) = request {
            if should_skip_request(&self.buffer, &request, skipped) {
                self.go_on();
            } else {
                self.current = Some(request);
                self.step = WorkStep::Handle;
            }
        }
    }

    /// Goes on after the current step.
    pub fn next<F: Fn(&Q, &Q) -> bool>(&mut self, report: WorkReport<Q, C, S, D, E>, skipped: &F)
        requires
            old(self).well_formed(),
            old(self).accepts(report),
            forall|q1: &Q, q2: &Q| #[trigger] call_requires(*skipped, (q1, q2)),
        ensures
            old(self).steps(report, *skipped, *final(self)),
            final(self).well_formed(),
    {
        match report {
            WorkReport::Request(request) => {
                self.buffer.push_back(request);
                self.step = WorkStep::BreakIdle;
            },
            WorkReport::Player { healthy } => {
                self.step = if healthy {
                    WorkStep::ConfirmUnasked { secs: CONFIRMATION_TIMEOUT_SECS }
                } else {
                    WorkStep::Stop { mark_unhealthy: false, return_player: true }
                };
            },
            WorkReport::NoPlayer => {
                self.step = WorkStep::Stop { mark_unhealthy: true, return_player: false };
            },
            WorkReport::More(more) => {
                self.collect(more, skipped);
            },
            WorkReport::Served(served) => match served {
                Served::Finished(done) => {
                    self.step = WorkStep::SendSuccess;
                    self.result = Some(Ok(done));
                },
                Served::TimedOut => {
                    self.step = WorkStep::Reconnect;
                },
                Served::Failed(e) => {
                    self.step = WorkStep::SendError;
                    self.result = Some(Err(e));
                },
            },
            WorkReport::Done => {
                self.step = match self.step {
                    WorkStep::ReturnPlayer { .. } => WorkStep::AwaitConfirmation {
                        secs: CONFIRMATION_TIMEOUT_SECS,
                    },
                    WorkStep::Stop { .. } => WorkStep::MarkUnhealthy,
                    _ => WorkStep::Ended,
                };
            },
            WorkReport::Guarded(Guarded::Done) => match self.step {
                WorkStep::BreakIdle => {
                    self.step = WorkStep::TakePlayer;
                },
                WorkStep::TakePlayer => {
                    self.step = WorkStep::Confirm { secs: CONFIRMATION_TIMEOUT_SECS };
                },
                WorkStep::Confirm { .. } => {
                    self.step = WorkStep::SetReadTimeout { timeout: Timeout::Read };
                },
                WorkStep::Reconnect => {
                    self.step = WorkStep::SetWriteTimeout { timeout: Timeout::Write };
                },
                WorkStep::SetWriteTimeout { .. } => {
                    self.step = WorkStep::RenewBreakHandle;
                },
                WorkStep::ConfirmUnasked { .. } => {
                    self.step = WorkStep::ReturnPlayer { mark_unhealthy: false };
                },
                WorkStep::AwaitConfirmation { .. } => {
                    self.step = WorkStep::Wait;
                },
                _ => {
                    self.go_on();
                },
            },
            WorkReport::Guarded(g) => {
                self.step = give_up(self.step, g);
                self.result = None;
            },
        }
    }
}

fn give_up(step: WorkStep, g: Guarded) -> (r: WorkStep)
    requires
        step.is_guarded() || step is Wait,
    ensures
        r == step.gives_up(g),
{
    let mark_unhealthy = match g {
        Guarded::Failed => true,
        _ => false,
    };
    match step {
        WorkStep::SendSuccess => WorkStep::ReturnPlayer { mark_unhealthy },
        WorkStep::SendError => WorkStep::ReturnPlayer { mark_unhealthy },
        WorkStep::Reconnect => WorkStep::ReturnPlayer { mark_unhealthy },
        WorkStep::SetWriteTimeout { .. } => WorkStep::ReturnPlayer { mark_unhealthy },
        WorkStep::RenewBreakHandle => WorkStep::ReturnPlayer { mark_unhealthy },
        WorkStep::Confirm { .. } => WorkStep::Stop { mark_unhealthy, return_player: true },
        WorkStep::SetReadTimeout { .. } => WorkStep::Stop { mark_unhealthy, return_player: true },
        WorkStep::ConfirmUnasked { .. } => WorkStep::Stop { mark_unhealthy, return_player: true },
        _ => WorkStep::Stop { mark_unhealthy, return_player: false },
    }
}

/// The step, with this report, took the player out of the return channel.
pub open spec fn takes_player<Q, C, S, D, E>(step: WorkStep, report: WorkReport<Q, C, S, D, E>) -> bool {
    match (step, report) {
        (WorkStep::Wait, WorkReport::Player { .. }) => true,
        (WorkStep::TakePlayer, WorkReport::Guarded(Guarded::Done)) => true,
        _ => false,
    }
}

/// The step puts the player into the return channel.
pub open spec fn gives_player(step: WorkStep) -> bool {
    step is ReturnPlayer || (step matches WorkStep::Stop { return_player, .. } && return_player)
}

/// The request thread has the player exactly when it has taken it and not yet
/// given it back: whatever happens, it never ends with the player in its hands.
pub proof fn law_work_accounts_for_the_player<Q, C, S, D, E, F: Fn(&Q, &Q) -> bool>(
    before: Worker<Q, C, S, D, E>,
    report: WorkReport<Q, C, S, D, E>,
    skipped: F,
    after: Worker<Q, C, S, D, E>,
)
    requires
        before.well_formed(),
        before.accepts(report),
        before.steps(report, skipped, after),
    ensures
        takes_player(before.step, report) ==> !before.step.holds_player()
            && after.step.holds_player(),
        gives_player(before.step) ==> before.step.holds_player() && !after.step.holds_player(),
        !takes_player(before.step, report) && !gives_player(before.step)
            ==> after.step.holds_player() == before.step.holds_player(),
        !(WorkStep::Ended).holds_player(),
{
}

/// Requests are looked at in the order in which they came: a step leaves those
/// that are pending as they are, adds new ones at the end, or drops the first.
/// It drops one only where later queries supersede it.
pub proof fn law_requests_keep_their_order<Q, C, S, D, E, F: Fn(&Q, &Q) -> bool>(
    before: Worker<Q, C, S, D, E>,
    report: WorkReport<Q, C, S, D, E>,
    skipped: F,
    after: Worker<Q, C, S, D, E>,
)
    requires
        before.well_formed(),
        before.accepts(report),
        before.steps(report, skipped, after),
    ensures
        match report {
            WorkReport::Request(request) => after.pending() == before.pending().push(request),
            WorkReport::More(more) => {
                let all = before.pending() + more@;
                if after.step is Handle {
                    after.pending() == all
                } else {
                    after.pending() == all.skip(1) && request::is_superseded(
                        all.skip(1),
                        all[0],
                        skipped,
                        true,
                    )
                }
            },
            _ => after.pending() == before.pending(),
        },
{
    match report {
        WorkReport::Request(request) => {
            assert(after.pending() == before.pending().push(request));
        },
        WorkReport::More(more) => {
            let all = before.pending() + more@;
            assert(all.skip(1) == before.buffer@ + more@);
            assert(all == seq![before.current->0] + (before.buffer@ + more@));
            if after.step !is Handle && all.skip(1).len() > 0 {
                assert(after.pending() == all.skip(1));
            }
        },
        _ => {
            if before.step is SetReadTimeout || before.step is SendSuccess || before.step is SendError
                || before.step is RenewBreakHandle {
                if after.step is Collect {
                    assert(before.buffer@ == seq![before.buffer@[0]] + before.buffer@.skip(1));
                }
            }
        },
    }
}

/// The thread ends only after it has marked the connection as unhealthy.
pub proof fn law_work_ends_unhealthy<Q, C, S, D, E, F: Fn(&Q, &Q) -> bool>(
    before: Worker<Q, C, S, D, E>,
    report: WorkReport<Q, C, S, D, E>,
    skipped: F,
    after: Worker<Q, C, S, D, E>,
)
    requires
        before.accepts(report),
        before.steps(report, skipped, after),
    ensures
        after.step is Ended <==> before.step is MarkUnhealthy,
{
}

/// The application hears of a request exactly what serving it gave: its result,
/// or its error unless the player took too long; then the thread reconnects and
/// says nothing.
pub proof fn law_the_event_carries_the_result<Q, C, S, D, E, F: Fn(&Q, &Q) -> bool>(
    before: Worker<Q, C, S, D, E>,
    result: Result<D, E>,
    timed_out: bool,
    skipped: F,
    after: Worker<Q, C, S, D, E>,
)
    requires
        before.well_formed(),
        before.accepts(WorkReport::Served(Served::judged(result, timed_out))),
        before.steps(WorkReport::Served(Served::judged(result, timed_out)), skipped, after),
    ensures
        result is Ok ==> after.step is SendSuccess && after.result == Some(result),
        result is Err && !timed_out ==> after.step is SendError && after.result == Some(result),
        result is Err && timed_out ==> after.step is Reconnect && after.result is None,
        after.pending() == before.pending(),
{
}

} // verus!
