//! What holds of the threads together: there is one player, and it is in one place.

use crate::worker::idle::{IdleReport, IdleStep};
use crate::worker::supervisor::SupervisorStep;
use crate::worker::work;
use crate::worker::work::{WorkReport, Worker};
use vstd::prelude::*;

verus! {

/// The threads, and how many players are in the return channel.
pub ghost struct Threads<Q, C, S, D, E> {
    pub channel: int,
    pub supervisor: SupervisorStep,
    pub idle: Option<IdleStep>,
    pub work: Option<Worker<Q, C, S, D, E>>,
}

/// One thread does its current step.
pub ghost enum Move<Q, C, S, D, E> {
    Supervisor { ok: bool },
    Idle { report: IdleReport },
    Work { report: WorkReport<Q, C, S, D, E> },
}

pub open spec fn count(b: bool) -> int {
    if b {
        1
    } else {
        0
    }
}

impl<Q, C, S, D, E> Threads<Q, C, S, D, E> {
    pub open spec fn idle_holds(self) -> bool {
        self.idle matches Some(idle) && idle.holds_player()
    }

    pub open spec fn work_holds(self) -> bool {
        self.work matches Some(worker) && worker.step.holds_player()
    }

    /// How many players there are.
    pub open spec fn players(self) -> int {
        self.channel + count(self.supervisor.holds_player()) + count(self.idle_holds()) + count(
            self.work_holds(),
        )
    }

    /// The idle thread exists only after it was started, the request thread
    /// only while the supervisor waits for both.
    pub open spec fn well_formed(self) -> bool {
        &&& self.channel >= 0
        &&& self.idle is Some ==> self.supervisor is SendPlayer
            || self.supervisor is AwaitConfirmation || self.supervisor is SpawnWork
            || self.supervisor is JoinThreads || self.supervisor is End
        &&& self.work is Some ==> self.supervisor is JoinThreads
        &&& self.work matches Some(worker) ==> worker.well_formed()
    }

    /// At the start the supervisor has the player.
    pub open spec fn is_start(self) -> bool {
        &&& self.channel == 0
        &&& self.supervisor is HandIn
        &&& self.idle is None
        &&& self.work is None
    }

    /// One thread makes a move. What is taken out of the return channel has to
    /// be in it; the supervisor joins threads only when they have ended.
    pub open spec fn moves<F: Fn(&Q, &Q) -> bool>(
        self,
        m: Move<Q, C, S, D, E>,
        skipped: F,
        after: Self,
    ) -> bool {
        match m {
            Move::Supervisor { ok } => {
                let step = self.supervisor;
                &&& step.must_succeed() || step is SendPlayer ==> ok
                &&& step.takes_player(ok) ==> self.channel > 0
                &&& after.channel == self.channel - count(step.takes_player(ok)) + count(
                    step.gives_player(ok),
                )
                &&& after.supervisor == step.after(ok)
                &&& match step {
                    SupervisorStep::SpawnIdle => after.idle == Some(IdleStep::TakePlayer)
                        && after.work == self.work,
                    SupervisorStep::SpawnWork => {
                        &&& after.idle == self.idle
                        &&& after.work matches Some(worker)
                        &&& worker.step is Wait
                        &&& worker.well_formed()
                    },
                    SupervisorStep::JoinThreads => {
                        &&& self.idle matches Some(idle) ==> idle is Ended
                        &&& self.work matches Some(worker) ==> worker.step is Ended
                        &&& after.idle is None
                        &&& after.work is None
                    },
                    _ => after.idle == self.idle && after.work == self.work,
                }
            },
            Move::Idle { report } => {
                &&& self.idle matches Some(step)
                &&& after.idle matches Some(next)
                &&& step.accepts(report)
                &&& step.steps(report, next)
                &&& step.takes_player(report) ==> self.channel > 0
                &&& after.channel == self.channel - count(step.takes_player(report)) + count(
                    step.gives_player(),
                )
                &&& after.supervisor == self.supervisor
                &&& after.work == self.work
            },
            Move::Work { report } => {
                &&& self.work matches Some(worker)
                &&& after.work matches Some(next)
                &&& worker.accepts(report)
                &&& worker.steps(report, skipped, next)
                &&& work::takes_player(worker.step, report) ==> self.channel > 0
                &&& after.channel == self.channel - count(
                    work::takes_player(worker.step, report),
                ) + count(work::gives_player(worker.step))
                &&& after.supervisor == self.supervisor
                &&& after.idle == self.idle
            },
        }
    }
}

proof fn lemma_step_keeps_form<Q, C, S, D, E, F: Fn(&Q, &Q) -> bool>(
    before: Worker<Q, C, S, D, E>,
    report: WorkReport<Q, C, S, D, E>,
    skipped: F,
    after: Worker<Q, C, S, D, E>,
)
    requires
        before.well_formed(),
        before.accepts(report),
        before.steps(report, skipped, after),
    ensures
        after.well_formed(),
{
}

/// There is exactly one player, from the start and after every move of any
/// thread: it is in the return channel or in the hands of one thread, never of
/// two, and it is never lost.
pub proof fn law_there_is_one_player<Q, C, S, D, E, F: Fn(&Q, &Q) -> bool>(
    before: Threads<Q, C, S, D, E>,
    m: Move<Q, C, S, D, E>,
    skipped: F,
    after: Threads<Q, C, S, D, E>,
)
    requires
        before.is_start() || before.well_formed() && before.players() == 1,
        before.moves(m, skipped, after),
    ensures
        after.well_formed(),
        after.players() == 1,
        after.channel <= 1,
{
    match m {
        Move::Supervisor { ok } => {
            crate::worker::supervisor::law_supervisor_accounts_for_the_player(
                before.supervisor,
                ok,
            );
        },
        Move::Idle { report } => {
            crate::worker::idle::law_idle_accounts_for_the_player(
                before.idle->0,
                report,
                after.idle->0,
            );
        },
        Move::Work { report } => {
            work::law_work_accounts_for_the_player(
                before.work->0,
                report,
                skipped,
                after.work->0,
            );
            lemma_step_keeps_form(before.work->0, report, skipped, after.work->0);
        },
    }
}

} // verus!
