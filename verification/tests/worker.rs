use rmpc_core::mpd::types::IdleEvent;
use rmpc_core::worker::idle::{Guarded, IdleReport, IdleStep};
use rmpc_core::worker::request::{
    handle_client_request, should_skip_request, ClientRequest, MpdCommand, MpdQuery, MpdQuerySync,
    WorkDone,
};
use rmpc_core::worker::supervisor::{CheckStep, SupervisorStep};
use rmpc_core::worker::timeouts::{Timeout, Timeouts};
use rmpc_core::worker::work::{Served, WorkReport, WorkStep, Worker};
use std::collections::VecDeque;

type Request = ClientRequest<u32, &'static str, &'static str>;

/// A query is replaced by one with the same last digit.
fn same_digit(first: &u32, second: &u32) -> bool {
    first % 10 == second % 10
}

#[test]
fn a_query_is_skipped_for_a_later_one() {
    let mut buffer: VecDeque<Request> = VecDeque::new();
    assert!(!should_skip_request(&buffer, &ClientRequest::Query(1), &same_digit));
    buffer.push_back(ClientRequest::Command("c"));
    buffer.push_back(ClientRequest::Query(12));
    assert!(!should_skip_request(&buffer, &ClientRequest::Query(1), &same_digit));
    buffer.push_back(ClientRequest::Query(31));
    assert!(should_skip_request(&buffer, &ClientRequest::Query(1), &same_digit));
    assert!(!should_skip_request(&buffer, &ClientRequest::Command("c"), &same_digit));
    assert!(!should_skip_request(&buffer, &ClientRequest::QuerySync("s"), &same_digit));
}

#[test]
fn two_batches_decide_as_one() {
    let request = ClientRequest::Query(1);
    let batches: [&[u32]; 4] = [&[], &[2, 3], &[11], &[4, 21, 31]];
    let queries = |batch: &[u32]| -> VecDeque<Request> {
        batch.iter().map(|q| ClientRequest::Query(*q)).collect()
    };
    for first in batches {
        for second in batches {
            let both: Vec<u32> = first.iter().chain(second).copied().collect();
            let backwards: Vec<u32> = both.iter().rev().copied().collect();
            assert_eq!(
                should_skip_request(&queries(&both), &request, &same_digit),
                should_skip_request(&queries(&backwards), &request, &same_digit)
            );
            assert_eq!(
                should_skip_request(&queries(&both), &request, &same_digit),
                should_skip_request(&queries(first), &request, &same_digit)
                    || should_skip_request(&queries(second), &request, &same_digit)
            );
        }
    }
}

type Callback<D> = Box<dyn FnOnce(&mut Vec<u32>) -> Result<D, String>>;
type Work = ClientRequest<
    MpdQuery<&'static str, u8, Callback<u32>>,
    MpdCommand<Callback<()>>,
    MpdQuerySync<Callback<u32>, Box<dyn FnOnce(u32) -> Result<(), String>>>,
>;

fn serve(client: &mut Vec<u32>, request: Work) -> Result<WorkDone<&'static str, u8, u32>, String> {
    handle_client_request(client, request)
}

#[test]
fn requests_are_served_with_the_player() {
    let mut client = vec![5];
    let query = ClientRequest::Query(MpdQuery {
        id: "volume",
        target: 3u8,
        callback: Box::new(|c: &mut Vec<u32>| {
            c.push(6);
            Ok(c.len() as u32)
        }) as Callback<u32>,
    });
    match serve(&mut client, query) {
        Ok(WorkDone::MpdCommandFinished { id, target, data }) => {
            assert_eq!((id, target, data), ("volume", 3, 2));
        }
        _ => panic!("no answer"),
    }
    let command = ClientRequest::Command(MpdCommand {
        callback: Box::new(|c: &mut Vec<u32>| {
            c.clear();
            Ok(())
        }) as Callback<()>,
    });
    assert!(matches!(serve(&mut client, command), Ok(WorkDone::Nothing)));
    assert!(client.is_empty());
    let failing = ClientRequest::Command(MpdCommand {
        callback: Box::new(|_: &mut Vec<u32>| Err("no".to_string())) as Callback<()>,
    });
    assert_eq!(serve(&mut client, failing).unwrap_err(), "no");
}

#[test]
fn answers_go_to_the_one_who_asked() {
    let (tx, rx) = std::sync::mpsc::channel();
    let ask = move |ok: bool| {
        let tx = tx.clone();
        ClientRequest::QuerySync(MpdQuerySync {
            callback: Box::new(|c: &mut Vec<u32>| Ok(c[0])) as Callback<u32>,
            tx: Box::new(move |n: u32| {
                tx.send(n).map_err(|e| e.to_string())?;
                if ok { Ok(()) } else { Err("closed".to_string()) }
            }) as Box<dyn FnOnce(u32) -> Result<(), String>>,
        })
    };
    let mut client = vec![9];
    assert!(matches!(serve(&mut client, ask(true)), Ok(WorkDone::Nothing)));
    assert_eq!(rx.recv().unwrap(), 9);
    assert_eq!(serve(&mut client, ask(false)).unwrap_err(), "closed");
}

#[test]
fn a_check_goes_through_all_its_steps() {
    assert_eq!(CheckStep::begin(true), CheckStep::Concluded { connected: true });
    let run = |oks: [bool; 5]| {
        let mut step = CheckStep::begin(false);
        for ok in oks {
            step = step.next(ok);
        }
        step
    };
    let concluded = |connected| CheckStep::Concluded { connected };
    assert_eq!(run([true, true, true, true, true]), concluded(true));
    assert_eq!(run([true, true, false, true, true]), concluded(true));
    assert_eq!(run([false, true, true, true, true]), concluded(false));
    assert_eq!(run([true, true, true, false, true]), concluded(false));
    assert_eq!(run([true, true, true, true, false]), concluded(false));
}

#[test]
fn each_step_sets_its_own_timeout() {
    let timeouts = Timeouts { idle_read: None, read: 10, write: 20 };
    assert_eq!(timeouts.get(Timeout::IdleRead), None);
    assert_eq!(timeouts.get(Timeout::Read), Some(10));
    assert_eq!(timeouts.get(Timeout::Write), Some(20));
    let timeouts = Timeouts { idle_read: Some(5), read: 10, write: 20 };
    assert_eq!(timeouts.get(Timeout::IdleRead), Some(5));
    let step = CheckStep::begin(false).next(true).next(true).next(true);
    assert_eq!(step, CheckStep::SetReadTimeout { timeout: Timeout::Read });
    assert_eq!(step.next(true), CheckStep::SetWriteTimeout { timeout: Timeout::Write });
    let idle = IdleStep::begin().next(guarded(Guarded::Done));
    assert!(matches!(idle, IdleStep::SetReadTimeout { timeout: Timeout::IdleRead }));
}

#[test]
fn each_round_tells_once_of_the_lost_connection() {
    // Which step fails, where it may; 99 stands for none.
    for (failing, told) in [(99, 1), (2, 0), (3, 1), (6, 1), (7, 1), (11, 0)] {
        let mut step = SupervisorStep::MarkHealthy { first_loop: false };
        let mut seen = 0;
        let mut count = 0;
        let pause = SupervisorStep::Pause { secs: 1 };
        while step != pause && step != SupervisorStep::End {
            if step == SupervisorStep::SendLostConnection {
                seen += 1;
            }
            step = step.next(count != failing);
            count += 1;
        }
        assert_eq!(seen, told, "{failing}");
        assert_eq!(step == pause, told == 1);
    }
}

#[test]
fn the_supervisor_starts_over() {
    let mut step = SupervisorStep::begin();
    let mut seen = Vec::new();
    for _ in 0..14 {
        seen.push(step);
        step = step.next(true);
    }
    assert_eq!(
        seen,
        [
            SupervisorStep::HandIn,
            SupervisorStep::MarkHealthy { first_loop: true },
            SupervisorStep::DropConfirmations { first_loop: true },
            SupervisorStep::TakePlayer { first_loop: true },
            SupervisorStep::GetBreakHandle,
            SupervisorStep::SpawnIdle,
            SupervisorStep::SendPlayer,
            SupervisorStep::AwaitConfirmation,
            SupervisorStep::SpawnWork,
            SupervisorStep::JoinThreads,
            SupervisorStep::SendLostConnection,
            SupervisorStep::Pause { secs: 1 },
            SupervisorStep::MarkHealthy { first_loop: false },
            SupervisorStep::DropConfirmations { first_loop: false },
        ]
    );
    let taken = step.next(true);
    assert_eq!(taken, SupervisorStep::Check(CheckStep::Reconnect));
    let refused = taken.next(false);
    assert_eq!(refused, SupervisorStep::ReturnPlayer);
    assert_eq!(refused.next(true), SupervisorStep::SendLostConnection);
    assert_eq!(SupervisorStep::AwaitConfirmation.next(false), SupervisorStep::End);
    assert_eq!(
        SupervisorStep::TakePlayer { first_loop: false }.next(false),
        SupervisorStep::End
    );
}

fn guarded(g: Guarded) -> IdleReport {
    IdleReport::Guarded(g)
}

#[test]
fn the_idle_thread_sends_all_events_and_returns_the_player() {
    let mut step = IdleStep::begin();
    for _ in 0..3 {
        assert!(step.can_take(&guarded(Guarded::Done)));
        step = step.next(guarded(Guarded::Done));
    }
    assert!(matches!(step, IdleStep::WaitForEvent));
    step = step.next(IdleReport::TimedOut { healthy: true });
    assert!(matches!(step, IdleStep::WaitForEvent));
    step = step.next(IdleReport::Events(vec![IdleEvent::Mixer, IdleEvent::Player]));
    for expected in [IdleEvent::Mixer, IdleEvent::Player] {
        match &step {
            IdleStep::SendEvent { event, .. } => assert_eq!(*event, expected),
            _ => panic!("no event"),
        }
        step = step.next(IdleReport::Sent { ok: true });
    }
    assert!(matches!(step, IdleStep::ReturnPlayer));
    step = step.next(IdleReport::Done);
    assert!(matches!(step, IdleStep::AwaitConfirmation { secs: 3 }));
    step = step.next(guarded(Guarded::Done));
    assert!(matches!(step, IdleStep::TakePlayer));
}

#[test]
fn the_idle_thread_never_keeps_the_player() {
    let stop = |step: IdleStep, report| match step.next(report) {
        IdleStep::Stop { mark_unhealthy, return_player } => (mark_unhealthy, return_player),
        _ => panic!("goes on"),
    };
    assert_eq!(stop(IdleStep::TakePlayer, guarded(Guarded::Unhealthy)), (false, false));
    assert_eq!(stop(IdleStep::TakePlayer, guarded(Guarded::Failed)), (true, false));
    assert_eq!(stop(IdleStep::Confirm { secs: 3 }, guarded(Guarded::Failed)), (true, true));
    let timeout = IdleStep::SetReadTimeout { timeout: Timeout::IdleRead };
    assert_eq!(stop(timeout, guarded(Guarded::Unhealthy)), (false, true));
    assert_eq!(stop(IdleStep::WaitForEvent, IdleReport::Broken), (true, true));
    assert_eq!(
        stop(IdleStep::WaitForEvent, IdleReport::TimedOut { healthy: false }),
        (false, true)
    );
    assert_eq!(
        stop(
            IdleStep::SendEvent { event: IdleEvent::Output, rest: Vec::new() },
            IdleReport::Sent { ok: false }
        ),
        (false, true)
    );
    assert_eq!(stop(IdleStep::AwaitConfirmation { secs: 3 }, guarded(Guarded::Failed)), (true, false));
    let ended = IdleStep::Stop { mark_unhealthy: true, return_player: true };
    assert!(matches!(ended.next(IdleReport::Done), IdleStep::Ended));
}

type Thread = Worker<u32, &'static str, &'static str, u8, &'static str>;
type Report = WorkReport<u32, &'static str, &'static str, u8, &'static str>;

fn report(worker: &mut Thread, report: Report) {
    assert!(worker.can_take(&report));
    worker.next(report, &same_digit);
}

/// A thread that has a request and the player.
fn serving() -> Thread {
    let mut worker = Worker::new();
    report(&mut worker, WorkReport::Request(ClientRequest::Query(1)));
    for step in [
        WorkStep::BreakIdle,
        WorkStep::TakePlayer,
        WorkStep::Confirm { secs: 3 },
        WorkStep::SetReadTimeout { timeout: Timeout::Read },
    ] {
        assert_eq!(worker.step, step);
        report(&mut worker, WorkReport::Guarded(Guarded::Done));
    }
    assert_eq!(worker.step, WorkStep::Collect);
    worker
}

#[test]
fn requests_are_served_in_order_and_superseded_ones_skipped() {
    let mut worker = serving();
    assert!(worker.take_request().is_none());
    report(
        &mut worker,
        WorkReport::More(vec![ClientRequest::Command("c"), ClientRequest::Query(21)]),
    );
    assert_eq!(worker.step, WorkStep::Collect);
    report(&mut worker, WorkReport::More(Vec::new()));
    assert_eq!(worker.step, WorkStep::Handle);
    assert!(matches!(worker.take_request(), Some(ClientRequest::Command("c"))));
    report(&mut worker, WorkReport::Served(Served::judge(Ok(7), false)));
    assert_eq!(worker.step, WorkStep::SendSuccess);
    assert!(!worker.can_take(&WorkReport::Guarded(Guarded::Done)));
    assert_eq!(worker.take_result(), Some(Ok(7)));
    assert_eq!(worker.take_result(), None);
    report(&mut worker, WorkReport::Guarded(Guarded::Done));
    report(&mut worker, WorkReport::More(Vec::new()));
    assert!(matches!(worker.take_request(), Some(ClientRequest::Query(21))));
    report(&mut worker, WorkReport::Served(Served::judge(Err("bad"), false)));
    assert_eq!(worker.step, WorkStep::SendError);
    assert_eq!(worker.take_result(), Some(Err("bad")));
    report(&mut worker, WorkReport::Guarded(Guarded::Done));
    assert_eq!(worker.step, WorkStep::ReturnPlayer { mark_unhealthy: false });
    report(&mut worker, WorkReport::Done);
    assert_eq!(worker.step, WorkStep::AwaitConfirmation { secs: 3 });
    report(&mut worker, WorkReport::Guarded(Guarded::Done));
    assert_eq!(worker.step, WorkStep::Wait);
}

#[test]
fn a_timeout_makes_the_thread_reconnect() {
    let mut worker = serving();
    report(&mut worker, WorkReport::More(Vec::new()));
    let served = WorkReport::Served(Served::judge(Err("slow"), true));
    assert!(!worker.can_take(&served));
    assert!(worker.take_request().is_some());
    report(&mut worker, served);
    assert_eq!(worker.take_result(), None);
    for step in [
        WorkStep::Reconnect,
        WorkStep::SetWriteTimeout { timeout: Timeout::Write },
        WorkStep::RenewBreakHandle,
    ] {
        assert_eq!(worker.step, step);
        report(&mut worker, WorkReport::Guarded(Guarded::Done));
    }
    assert_eq!(worker.step, WorkStep::ReturnPlayer { mark_unhealthy: false });
}

#[test]
fn a_failure_while_serving_returns_the_player_first() {
    let mut worker = serving();
    report(&mut worker, WorkReport::More(Vec::new()));
    worker.take_request();
    report(&mut worker, WorkReport::Served(Served::Finished(7)));
    report(&mut worker, WorkReport::Guarded(Guarded::Failed));
    assert_eq!(worker.take_result(), None);
    assert_eq!(worker.step, WorkStep::ReturnPlayer { mark_unhealthy: true });
    report(&mut worker, WorkReport::Done);
    report(&mut worker, WorkReport::Guarded(Guarded::Unhealthy));
    assert_eq!(worker.step, WorkStep::Stop { mark_unhealthy: false, return_player: false });
    report(&mut worker, WorkReport::Done);
    assert_eq!(worker.step, WorkStep::MarkUnhealthy);
    report(&mut worker, WorkReport::Done);
    assert_eq!(worker.step, WorkStep::Ended);
}

#[test]
fn a_player_that_nobody_asked_for_is_sent_back() {
    let mut worker: Thread = Worker::new();
    report(&mut worker, WorkReport::Player { healthy: true });
    assert_eq!(worker.step, WorkStep::ConfirmUnasked { secs: 3 });
    report(&mut worker, WorkReport::Guarded(Guarded::Done));
    assert_eq!(worker.step, WorkStep::ReturnPlayer { mark_unhealthy: false });
    let mut worker: Thread = Worker::new();
    report(&mut worker, WorkReport::Player { healthy: false });
    assert_eq!(worker.step, WorkStep::Stop { mark_unhealthy: false, return_player: true });
    let mut worker: Thread = Worker::new();
    report(&mut worker, WorkReport::NoPlayer);
    assert_eq!(worker.step, WorkStep::Stop { mark_unhealthy: true, return_player: false });
    let mut worker: Thread = Worker::new();
    assert!(!worker.can_take(&WorkReport::Guarded(Guarded::Done)));
    report(&mut worker, WorkReport::Guarded(Guarded::Unhealthy));
    assert_eq!(worker.step, WorkStep::Stop { mark_unhealthy: false, return_player: false });
}

/// Steps a thread can be in that hold the player, by name.
fn work_holds(step: WorkStep) -> bool {
    match step {
        WorkStep::Wait
        | WorkStep::BreakIdle
        | WorkStep::TakePlayer
        | WorkStep::AwaitConfirmation { .. }
        | WorkStep::MarkUnhealthy
        | WorkStep::Ended => false,
        WorkStep::Stop { return_player, .. } => return_player,
        _ => true,
    }
}

#[test]
fn there_is_one_player_whoever_has_it() {
    let mut channel = 1;
    let mut idle = IdleStep::begin();
    let mut worker: Thread = Worker::new();
    let idle_holds = |step: &IdleStep| {
        !matches!(step, IdleStep::TakePlayer | IdleStep::AwaitConfirmation { .. } | IdleStep::Ended)
    };
    channel -= 1;
    idle = idle.next(guarded(Guarded::Done));
    idle = idle.next(guarded(Guarded::Done));
    idle = idle.next(guarded(Guarded::Done));
    report(&mut worker, WorkReport::Request(ClientRequest::Command("c")));
    report(&mut worker, WorkReport::Guarded(Guarded::Done));
    assert_eq!(channel + idle_holds(&idle) as i32 + work_holds(worker.step) as i32, 1);
    idle = idle.next(IdleReport::Events(Vec::new()));
    idle = idle.next(IdleReport::Done);
    channel += 1;
    assert_eq!(channel + idle_holds(&idle) as i32 + work_holds(worker.step) as i32, 1);
    report(&mut worker, WorkReport::Guarded(Guarded::Done));
    channel -= 1;
    assert_eq!(channel + idle_holds(&idle) as i32 + work_holds(worker.step) as i32, 1);
    report(&mut worker, WorkReport::Guarded(Guarded::Failed));
    assert_eq!(worker.step, WorkStep::Stop { mark_unhealthy: true, return_player: true });
    report(&mut worker, WorkReport::Done);
    channel += 1;
    assert_eq!(channel + idle_holds(&idle) as i32 + work_holds(worker.step) as i32, 1);
}
