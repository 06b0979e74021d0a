//! The way of each thread, from step to step.

use crate::mpd::types::IdleEvent;
use crate::worker::idle::{Guarded, IdleReport, IdleStep};
use crate::worker::request;
use crate::worker::request::ClientRequest;
use crate::worker::supervisor::{CheckStep, SupervisorStep};
use crate::worker::timeouts::{Timeout, Timeouts};
use crate::worker::work::{Served, WorkReport, WorkStep, Worker};
use vstd::prelude::*;

verus! {

/// Every timeout has the value that is configured for it; only idling can go on
/// without end.
pub proof fn law_timeouts_are_as_configured<T: Copy>(timeouts: Timeouts<T>, timeout: Timeout)
    ensures
        timeouts.value(Timeout::IdleRead) == timeouts.idle_read,
        timeouts.value(Timeout::Read) == Some(timeouts.read),
        timeouts.value(Timeout::Write) == Some(timeouts.write),
        timeouts.value(timeout) is None ==> timeout == Timeout::IdleRead,
{
}

/// A query is superseded exactly if `skipped` says of it, and of a query that came
/// later, that the later one replaces it.
pub proof fn law_later_queries_decide<Q, C, S, F: Fn(&Q, &Q) -> bool>(
    buffer: Seq<ClientRequest<Q, C, S>>,
    query: Q,
    skipped: F,
    i: int,
    later: Q,
)
    requires
        0 <= i < buffer.len(),
        buffer[i] == ClientRequest::<Q, C, S>::Query(later),
    ensures
        call_ensures(skipped, (&query, &later), true) ==> request::is_superseded(
            buffer,
            ClientRequest::Query(query),
            skipped,
            true,
        ),
        request::is_superseded(buffer, ClientRequest::Query(query), skipped, false)
            ==> call_ensures(skipped, (&query, &later), false),
{
    let asked = ClientRequest::<Q, C, S>::Query(query);
    if call_ensures(skipped, (&query, &later), true) {
        assert(request::supersedes(buffer[i], asked, skipped));
    }
    if request::is_superseded(buffer, asked, skipped, false) {
        assert(request::leaves_alone(buffer[i], asked, skipped));
    }
}

/// However a step of the idle thread goes, the thread takes the report.
pub proof fn law_the_idle_thread_takes_every_report(
    step: IdleStep,
    g: Guarded,
    events: Vec<IdleEvent>,
    flag: bool,
)
    ensures
        step is TakePlayer || step is SetReadTimeout || step is Confirm || step is AwaitConfirmation
            ==> step.accepts(IdleReport::Guarded(g)),
        step is WaitForEvent ==> step.accepts(IdleReport::Events(events)) && step.accepts(
            IdleReport::TimedOut { healthy: flag },
        ) && step.accepts(IdleReport::Broken),
        step is SendEvent ==> step.accepts(IdleReport::Sent { ok: flag }),
        step is ReturnPlayer || step is Stop ==> step.accepts(IdleReport::Done),
{
}

/// However a step of the request thread goes, the thread takes the report; what
/// there is to tell the application has to be taken from it first.
pub proof fn law_the_request_thread_takes_every_report<Q, C, S, D, E>(
    worker: Worker<Q, C, S, D, E>,
    g: Guarded,
    request: ClientRequest<Q, C, S>,
    more: Vec<ClientRequest<Q, C, S>>,
    served: Served<D, E>,
    healthy: bool,
)
    requires
        worker.well_formed(),
    ensures
        worker.step is BreakIdle || worker.step is TakePlayer || worker.step is Confirm
            || worker.step is SetReadTimeout || worker.step is Reconnect
            || worker.step is SetWriteTimeout || worker.step is RenewBreakHandle
            || worker.step is AwaitConfirmation || worker.step is ConfirmUnasked
            ==> worker.accepts(WorkReport::Guarded(g)),
        (worker.step is SendSuccess || worker.step is SendError) && worker.result is None
            ==> worker.accepts(WorkReport::Guarded(g)),
        worker.step is Wait ==> {
            &&& worker.accepts(WorkReport::Request(request))
            &&& worker.accepts(WorkReport::Player { healthy })
            &&& worker.accepts(WorkReport::NoPlayer)
            &&& g != Guarded::Done ==> worker.accepts(WorkReport::Guarded(g))
        },
        worker.step is Collect ==> worker.accepts(WorkReport::More(more)),
        worker.step is Handle && worker.current is None ==> worker.accepts(
            WorkReport::Served(served),
        ),
        worker.step is ReturnPlayer || worker.step is Stop || worker.step is MarkUnhealthy
            ==> worker.accepts(WorkReport::Done),
{
}

/// While all goes well the idle thread takes the player, sets the timeout for
/// idling, confirms within three seconds that it has the player, and waits for an
/// event; when it has given the player away it waits as long to hear of it, and then
/// for the player.
pub proof fn law_the_way_of_the_idle_thread(step: IdleStep, after: IdleStep)
    requires
        step.accepts(IdleReport::Guarded(Guarded::Done)),
        step.steps(IdleReport::Guarded(Guarded::Done), after),
    ensures
        step is TakePlayer ==> after == (IdleStep::SetReadTimeout { timeout: Timeout::IdleRead }),
        step is SetReadTimeout ==> after == (IdleStep::Confirm { secs: 3 }),
        step is Confirm ==> after is WaitForEvent,
        step is AwaitConfirmation ==> after is TakePlayer,
{
}

/// What the idle thread could not do ends it: it hands back the player if it has
/// it, and the connection counts as broken if the action was tried and failed.
pub proof fn law_the_idle_thread_gives_up(step: IdleStep, g: Guarded, after: IdleStep)
    requires
        step.accepts(IdleReport::Guarded(g)),
        g != Guarded::Done,
        step.steps(IdleReport::Guarded(g), after),
    ensures
        after == (IdleStep::Stop {
            mark_unhealthy: g == Guarded::Failed,
            return_player: step is SetReadTimeout || step is Confirm,
        }),
{
}

/// Nothing but an event, a broken connection or one that others have found broken
/// makes the idle thread stop waiting; then it hands back the player.
pub proof fn law_the_idle_thread_waits(
    report: IdleReport,
    after: IdleStep,
    event: IdleEvent,
    rest: Vec<IdleEvent>,
    last: IdleStep,
)
    requires
        (IdleStep::WaitForEvent).accepts(report),
        (IdleStep::WaitForEvent).steps(report, after),
        (IdleStep::SendEvent { event, rest }).steps(IdleReport::Sent { ok: false }, last),
    ensures
        report == (IdleReport::TimedOut { healthy: true }) ==> after is WaitForEvent,
        report == (IdleReport::TimedOut { healthy: false }) ==> after == (IdleStep::Stop {
            mark_unhealthy: false,
            return_player: true,
        }),
        report is Broken ==> after == (IdleStep::Stop {
            mark_unhealthy: true,
            return_player: true,
        }),
        report matches IdleReport::Events(events) ==> (events@.len() == 0 ==> after
            is ReturnPlayer),
        last == (IdleStep::Stop { mark_unhealthy: false, return_player: true }),
{
}

/// When the idle thread has put the player into the channel it waits for three
/// seconds at most to hear that it was taken; when it has stopped it is over.
pub proof fn law_the_idle_thread_hands_over(
    after: IdleStep,
    mark_unhealthy: bool,
    return_player: bool,
    last: IdleStep,
)
    requires
        (IdleStep::ReturnPlayer).steps(IdleReport::Done, after),
        (IdleStep::Stop { mark_unhealthy, return_player }).steps(IdleReport::Done, last),
    ensures
        after == (IdleStep::AwaitConfirmation { secs: 3 }),
        last is Ended,
{
}

/// While all goes well the request thread makes the idle thread give up the player,
/// takes it, confirms within three seconds that it has it, sets the timeout for
/// reading and begins to serve. After a reconnect it sets the timeout for writing
/// and renews the handle that breaks idling. A player that came unasked goes back.
pub proof fn law_the_way_of_the_request_thread<Q, C, S, D, E, F: Fn(&Q, &Q) -> bool>(
    before: Worker<Q, C, S, D, E>,
    skipped: F,
    after: Worker<Q, C, S, D, E>,
)
    requires
        before.well_formed(),
        before.accepts(WorkReport::Guarded(Guarded::Done)),
        before.steps(WorkReport::Guarded(Guarded::Done), skipped, after),
    ensures
        before.step is BreakIdle ==> after.step is TakePlayer,
        before.step is TakePlayer ==> after.step == (WorkStep::Confirm { secs: 3 }),
        before.step is Confirm ==> after.step == (WorkStep::SetReadTimeout {
            timeout: Timeout::Read,
        }),
        before.step is Reconnect ==> after.step == (WorkStep::SetWriteTimeout {
            timeout: Timeout::Write,
        }),
        before.step is SetWriteTimeout ==> after.step is RenewBreakHandle,
        before.step is ConfirmUnasked ==> after.step == (WorkStep::ReturnPlayer {
            mark_unhealthy: false,
        }),
        before.step is AwaitConfirmation ==> after.step is Wait,
        before.step is SetReadTimeout || before.step is SendSuccess || before.step is SendError
            || before.step is RenewBreakHandle ==> {
            &&& before.buffer@.len() == 0 ==> after.step == (WorkStep::ReturnPlayer {
                mark_unhealthy: false,
            }) && after.current is None
            &&& before.buffer@.len() > 0 ==> after.step is Collect && after.current == Some(
                before.buffer@[0],
            ) && after.buffer@ == before.buffer@.skip(1)
        },
{
}

/// What the request thread could not do makes it give back the player if it has it;
/// the connection counts as broken if the action was tried and failed. While it
/// serves requests it hands the player over as always, elsewhere it ends.
pub proof fn law_the_request_thread_gives_up<Q, C, S, D, E, F: Fn(&Q, &Q) -> bool>(
    before: Worker<Q, C, S, D, E>,
    g: Guarded,
    skipped: F,
    after: Worker<Q, C, S, D, E>,
)
    requires
        before.well_formed(),
        before.accepts(WorkReport::Guarded(g)),
        g != Guarded::Done,
        before.steps(WorkReport::Guarded(g), skipped, after),
    ensures
        before.step is SendSuccess || before.step is SendError || before.step is Reconnect
            || before.step is SetWriteTimeout || before.step is RenewBreakHandle ==> after.step == (
        WorkStep::ReturnPlayer { mark_unhealthy: g == Guarded::Failed }),
        before.step is Confirm || before.step is SetReadTimeout || before.step is ConfirmUnasked
            ==> after.step == (WorkStep::Stop {
            mark_unhealthy: g == Guarded::Failed,
            return_player: true,
        }),
        before.step is Wait || before.step is BreakIdle || before.step is TakePlayer
            || before.step is AwaitConfirmation ==> after.step == (WorkStep::Stop {
            mark_unhealthy: g == Guarded::Failed,
            return_player: false,
        }),
{
}

/// A request makes the thread ask for the player. A player that comes by itself is
/// confirmed within three seconds, or given back where the connection is broken.
/// Without a channel to wait at the thread ends.
pub proof fn law_what_wakes_the_request_thread<Q, C, S, D, E, F: Fn(&Q, &Q) -> bool>(
    before: Worker<Q, C, S, D, E>,
    report: WorkReport<Q, C, S, D, E>,
    skipped: F,
    after: Worker<Q, C, S, D, E>,
)
    requires
        before.well_formed(),
        before.accepts(report),
        before.steps(report, skipped, after),
    ensures
        report is Request ==> after.step is BreakIdle,
        report matches WorkReport::Player { healthy } ==> after.step == if healthy {
            WorkStep::ConfirmUnasked { secs: 3 }
        } else {
            WorkStep::Stop { mark_unhealthy: false, return_player: true }
        },
        report is NoPlayer ==> after.step == (WorkStep::Stop {
            mark_unhealthy: true,
            return_player: false,
        }),
        report is Done && before.step is ReturnPlayer ==> after.step == (
        WorkStep::AwaitConfirmation { secs: 3 }),
        report is Done && before.step is Stop ==> after.step is MarkUnhealthy,
        report is Done && before.step is MarkUnhealthy ==> after.step is Ended,
{
}

/// A request that no later query replaces is served next, with all that has come in
/// meanwhile waiting behind it; one that is replaced is passed over.
pub proof fn law_requests_are_served_or_replaced<Q, C, S, D, E, F: Fn(&Q, &Q) -> bool>(
    before: Worker<Q, C, S, D, E>,
    more: Vec<ClientRequest<Q, C, S>>,
    skipped: F,
    after: Worker<Q, C, S, D, E>,
)
    requires
        before.well_formed(),
        before.accepts(WorkReport::More(more)),
        before.steps(WorkReport::More(more), skipped, after),
    ensures
        after.step is Handle || after.step is Collect || after.step == (WorkStep::ReturnPlayer {
            mark_unhealthy: false,
        }),
        after.step is Handle ==> after.current == before.current && after.buffer@ == before.buffer@
            + more@,
        before.current->0 !is Query ==> after.step is Handle,
        before.buffer@.len() + more@.len() == 0 ==> after.step is Handle,
{
}

/// The judgement on a request that was served.
pub proof fn law_what_serving_means<D, E>(done: D, e: E, timed_out: bool)
    ensures
        Served::judged(Ok::<D, E>(done), timed_out) == Served::<D, E>::Finished(done),
        Served::judged(Err::<D, E>(e), true) is TimedOut,
        Served::judged(Err::<D, E>(e), false) == Served::<D, E>::Failed(e),
{
}

/// The first round of the supervisor begins with a player that is connected: it
/// goes straight to the threads. Every later round has it reconnect first.
pub proof fn law_the_way_of_the_supervisor(first_loop: bool, secs: u64)
    ensures
        (SupervisorStep::HandIn).after(true) == (SupervisorStep::MarkHealthy { first_loop: true }),
        (SupervisorStep::MarkHealthy { first_loop }).after(true) == (
        SupervisorStep::DropConfirmations { first_loop }),
        (SupervisorStep::DropConfirmations { first_loop }).after(true) == (
        SupervisorStep::TakePlayer { first_loop }),
        (SupervisorStep::TakePlayer { first_loop: true }).after(true)
            == SupervisorStep::GetBreakHandle,
        (SupervisorStep::TakePlayer { first_loop: false }).after(true) == SupervisorStep::Check(
            CheckStep::Reconnect,
        ),
        SupervisorStep::GetBreakHandle.after(true) == SupervisorStep::SpawnIdle,
        SupervisorStep::SpawnIdle.after(true) == SupervisorStep::SendPlayer,
        SupervisorStep::SendPlayer.after(true) == SupervisorStep::AwaitConfirmation,
        SupervisorStep::AwaitConfirmation.after(true) == SupervisorStep::SpawnWork,
        SupervisorStep::SpawnWork.after(true) == SupervisorStep::JoinThreads,
        SupervisorStep::JoinThreads.after(true) == SupervisorStep::SendLostConnection,
        SupervisorStep::SendLostConnection.after(true) == (SupervisorStep::Pause { secs: 1 }),
        (SupervisorStep::Pause { secs }).after(true) == (SupervisorStep::MarkHealthy {
            first_loop: false,
        }),
{
}

/// A check reconnects, drops the requests that are waiting, tells the application,
/// and sets the timeouts for reading and for writing; then the player goes to the
/// threads.
pub proof fn law_the_way_of_a_check(told: bool, timeout: Timeout)
    ensures
        SupervisorStep::Check(CheckStep::Reconnect).after(true) == SupervisorStep::Check(
            CheckStep::DropRequests,
        ),
        SupervisorStep::Check(CheckStep::DropRequests).after(told) == SupervisorStep::Check(
            CheckStep::SendReconnected,
        ),
        SupervisorStep::Check(CheckStep::SendReconnected).after(told) == SupervisorStep::Check(
            CheckStep::SetReadTimeout { timeout: Timeout::Read },
        ),
        SupervisorStep::Check(CheckStep::SetReadTimeout { timeout }).after(true)
            == SupervisorStep::Check(CheckStep::SetWriteTimeout { timeout: Timeout::Write }),
        SupervisorStep::Check(CheckStep::SetWriteTimeout { timeout }).after(true)
            == SupervisorStep::GetBreakHandle,
{
}

/// A check that fails gives the player back, and the application is told that the
/// connection is lost. Without a player, or without a sign that it has arrived, the
/// supervisor ends, and stays so. What else it does has to succeed.
pub proof fn law_the_supervisor_gives_up(first_loop: bool, timeout: Timeout, ok: bool)
    ensures
        SupervisorStep::Check(CheckStep::Reconnect).after(false) == SupervisorStep::ReturnPlayer,
        SupervisorStep::Check(CheckStep::SetReadTimeout { timeout }).after(false)
            == SupervisorStep::ReturnPlayer,
        SupervisorStep::Check(CheckStep::SetWriteTimeout { timeout }).after(false)
            == SupervisorStep::ReturnPlayer,
        SupervisorStep::ReturnPlayer.after(true) == SupervisorStep::SendLostConnection,
        (SupervisorStep::TakePlayer { first_loop }).after(false) == SupervisorStep::End,
        SupervisorStep::AwaitConfirmation.after(false) == SupervisorStep::End,
        SupervisorStep::End.after(ok) == SupervisorStep::End,
        forall|step: SupervisorStep| #[trigger]
            step.must_succeed() <==> step is HandIn || step is GetBreakHandle || step is SpawnIdle
                || step is SpawnWork || step is JoinThreads || step is ReturnPlayer,
{
}

} // verus!
