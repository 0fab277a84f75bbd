use crossbeam_channel::{bounded, unbounded, Receiver, Sender, TryRecvError};
use eaglesong_worker::{
    Arch, EaglesongCpu, Phase, ReportWindow, Seal, SolveRequest, TickPlan, WorkItem,
    WorkerMessage, WorkerState,
};
use std::time::{Duration, Instant};

fn work(tag: u8) -> WorkItem {
    let mut pow_hash = [0x11u8; 32];
    pow_hash[0] = tag;
    let mut target = [0u8; 32];
    target[2] = 0xff;
    target[31] = tag;
    WorkItem { pow_hash, target }
}

fn worker(arch: u32) -> (EaglesongCpu, Sender<WorkerMessage>, Receiver<Seal>) {
    let (seal_tx, seal_rx) = unbounded();
    let (worker_tx, worker_rx) = unbounded();
    (EaglesongCpu::new(seal_tx, worker_rx, arch), worker_tx, seal_rx)
}

#[test]
fn new_worker_is_enabled_without_work() {
    let (worker, _worker_tx, seal_rx) = worker(2);
    assert_eq!(worker.state(), WorkerState::new(Arch::Vector512));
    assert_eq!(worker.state().phase(), Phase::RunningNoWork);
    assert_eq!(worker.window(), ReportWindow { work_units: 0, window_start: 0 });
    assert_eq!(seal_rx.try_recv(), Err(TryRecvError::Empty));
}

#[test]
fn scenario_zero_nonce_sends_no_seal() {
    let (mut worker, worker_tx, seal_rx) = worker(0);
    worker_tx.send(WorkerMessage::NewWork(work(1))).unwrap();
    let plan = worker.begin_tick();
    assert_eq!(plan, TickPlan::Solve(SolveRequest { arch: Arch::Scalar, work: work(1) }));
    let outcome = worker.complete_solve(&work(1).pow_hash, 0, 1000);
    assert_eq!(outcome.seal, None);
    assert!(!outcome.delivered);
    assert_eq!(seal_rx.try_recv(), Err(TryRecvError::Empty));
    assert_eq!(worker.state().candidates_found, 0);
}

#[test]
fn scenario_nonzero_nonce_sends_one_seal() {
    let (mut worker, worker_tx, seal_rx) = worker(0);
    worker_tx.send(WorkerMessage::NewWork(work(1))).unwrap();
    let plan = worker.begin_tick();
    assert_eq!(plan, TickPlan::Solve(SolveRequest { arch: Arch::Scalar, work: work(1) }));
    let nonce: u128 = 0x0123_4567_89ab_cdef_0011_2233_4455_6677;
    let outcome = worker.complete_solve(&work(1).pow_hash, nonce, 1000);
    let seal = Seal { pow_hash: work(1).pow_hash, nonce };
    assert_eq!(outcome.seal, Some(seal));
    assert!(outcome.delivered);
    assert_eq!(seal_rx.try_recv(), Ok(seal));
    assert_eq!(seal_rx.try_recv(), Err(TryRecvError::Empty));
    assert_eq!(worker.state().candidates_found, 1);
}

#[test]
fn scenario_stop_sleeps_without_solving() {
    let (mut worker, worker_tx, seal_rx) = worker(0);
    worker_tx.send(WorkerMessage::NewWork(work(1))).unwrap();
    assert!(matches!(worker.begin_tick(), TickPlan::Solve(_)));
    worker_tx.send(WorkerMessage::Stop).unwrap();
    assert_eq!(worker.begin_tick(), TickPlan::Sleep { millis: 100 });
    assert_eq!(worker.begin_tick(), TickPlan::Sleep { millis: 100 });
    assert_eq!(worker.state().phase(), Phase::Stopped);
    assert_eq!(seal_rx.try_recv(), Err(TryRecvError::Empty));
    assert_eq!(worker.state().candidates_found, 0);
}

#[test]
fn tick_without_message_keeps_the_state() {
    let (mut worker, _worker_tx, _seal_rx) = worker(1);
    let before = worker.state();
    assert_eq!(worker.begin_tick(), TickPlan::Idle);
    assert_eq!(worker.state(), before);
    worker.poll_worker_message();
    assert_eq!(worker.state(), before);
}

#[test]
fn tick_takes_one_message_at_a_time() {
    let (mut worker, worker_tx, _seal_rx) = worker(0);
    worker_tx.send(WorkerMessage::NewWork(work(1))).unwrap();
    worker_tx.send(WorkerMessage::NewWork(work(2))).unwrap();
    worker_tx.send(WorkerMessage::Stop).unwrap();
    assert_eq!(
        worker.begin_tick(),
        TickPlan::Solve(SolveRequest { arch: Arch::Scalar, work: work(1) })
    );
    assert_eq!(
        worker.begin_tick(),
        TickPlan::Solve(SolveRequest { arch: Arch::Scalar, work: work(2) })
    );
    assert_eq!(worker.begin_tick(), TickPlan::Sleep { millis: 100 });
    assert_eq!(worker.begin_tick(), TickPlan::Sleep { millis: 100 });
    assert_eq!(worker.state().current_work, Some(work(2)));
}

#[test]
fn poll_applies_messages_in_order_of_receipt() {
    let (mut worker, worker_tx, _seal_rx) = worker(0);
    worker_tx.send(WorkerMessage::Stop).unwrap();
    worker_tx.send(WorkerMessage::NewWork(work(7))).unwrap();
    worker_tx.send(WorkerMessage::Start).unwrap();
    worker.poll_worker_message();
    assert!(!worker.state().running);
    assert_eq!(worker.state().current_work, None);
    worker.poll_worker_message();
    assert!(!worker.state().running);
    assert_eq!(worker.state().current_work, Some(work(7)));
    worker.poll_worker_message();
    assert!(worker.state().running);
    assert_eq!(worker.state().current_work, Some(work(7)));
    worker.poll_worker_message();
    assert!(worker.state().running);
    assert_eq!(worker.state().current_work, Some(work(7)));
}

#[test]
fn poll_leaves_the_window_alone() {
    let (mut worker, worker_tx, _seal_rx) = worker(0);
    worker.complete_solve(&work(1).pow_hash, 0, 5);
    let window = worker.window();
    worker_tx.send(WorkerMessage::Stop).unwrap();
    worker.poll_worker_message();
    assert_eq!(worker.window(), window);
}

#[test]
fn tick_without_work_does_not_solve() {
    let (mut worker, worker_tx, seal_rx) = worker(0);
    assert_eq!(worker.begin_tick(), TickPlan::Idle);
    worker_tx.send(WorkerMessage::Start).unwrap();
    assert_eq!(worker.begin_tick(), TickPlan::Idle);
    assert_eq!(worker.state().phase(), Phase::RunningNoWork);
    assert_eq!(seal_rx.try_recv(), Err(TryRecvError::Empty));
}

#[test]
fn stop_then_start_resumes_on_the_last_work() {
    let (mut worker, worker_tx, _seal_rx) = worker(1);
    worker_tx.send(WorkerMessage::NewWork(work(1))).unwrap();
    worker_tx.send(WorkerMessage::NewWork(work(2))).unwrap();
    worker_tx.send(WorkerMessage::Stop).unwrap();
    worker_tx.send(WorkerMessage::Start).unwrap();
    worker.begin_tick();
    worker.begin_tick();
    assert_eq!(worker.begin_tick(), TickPlan::Sleep { millis: 100 });
    assert_eq!(
        worker.begin_tick(),
        TickPlan::Solve(SolveRequest { arch: Arch::Vector256, work: work(2) })
    );
}

#[test]
fn new_work_while_stopped_is_held_until_start() {
    let (mut worker, worker_tx, seal_rx) = worker(0);
    worker_tx.send(WorkerMessage::Stop).unwrap();
    worker_tx.send(WorkerMessage::NewWork(work(3))).unwrap();
    assert_eq!(worker.begin_tick(), TickPlan::Sleep { millis: 100 });
    assert_eq!(worker.begin_tick(), TickPlan::Sleep { millis: 100 });
    assert_eq!(worker.state().current_work, Some(work(3)));
    assert_eq!(worker.begin_tick(), TickPlan::Sleep { millis: 100 });
    assert_eq!(seal_rx.try_recv(), Err(TryRecvError::Empty));
    worker_tx.send(WorkerMessage::Start).unwrap();
    assert_eq!(
        worker.begin_tick(),
        TickPlan::Solve(SolveRequest { arch: Arch::Scalar, work: work(3) })
    );
}

#[test]
fn disconnected_control_channel_is_no_message() {
    let (mut worker, worker_tx, _seal_rx) = worker(0);
    worker_tx.send(WorkerMessage::NewWork(work(4))).unwrap();
    drop(worker_tx);
    let solve = TickPlan::Solve(SolveRequest { arch: Arch::Scalar, work: work(4) });
    assert_eq!(worker.begin_tick(), solve);
    assert_eq!(worker.begin_tick(), solve);
    assert_eq!(worker.begin_tick(), solve);
}

#[test]
fn candidate_is_counted_when_the_consumer_is_gone() {
    let (mut worker, worker_tx, seal_rx) = worker(0);
    worker_tx.send(WorkerMessage::NewWork(work(1))).unwrap();
    worker.begin_tick();
    drop(seal_rx);
    let outcome = worker.complete_solve(&work(1).pow_hash, 99, 10);
    assert_eq!(outcome.seal, Some(Seal { pow_hash: work(1).pow_hash, nonce: 99 }));
    assert!(!outcome.delivered);
    assert_eq!(worker.state().candidates_found, 1);
    let outcome = worker.complete_solve(&work(1).pow_hash, 100, 10);
    assert!(!outcome.delivered);
    assert_eq!(worker.state().candidates_found, 2);
    assert_eq!(
        worker.begin_tick(),
        TickPlan::Solve(SolveRequest { arch: Arch::Scalar, work: work(1) })
    );
}

#[test]
fn every_nonzero_nonce_is_sent_in_order() {
    let (seal_tx, seal_rx) = bounded(8);
    let (worker_tx, worker_rx) = unbounded();
    let mut worker = EaglesongCpu::new(seal_tx, worker_rx, 0);
    worker_tx.send(WorkerMessage::NewWork(work(1))).unwrap();
    worker.begin_tick();
    let nonces: [u128; 6] = [5, 0, 6, 0, 0, 7];
    for nonce in nonces {
        worker.complete_solve(&work(1).pow_hash, nonce, 1);
    }
    assert_eq!(worker.state().candidates_found, 3);
    assert_eq!(seal_rx.try_recv(), Ok(Seal { pow_hash: work(1).pow_hash, nonce: 5 }));
    assert_eq!(seal_rx.try_recv(), Ok(Seal { pow_hash: work(1).pow_hash, nonce: 6 }));
    assert_eq!(seal_rx.try_recv(), Ok(Seal { pow_hash: work(1).pow_hash, nonce: 7 }));
    assert_eq!(seal_rx.try_recv(), Err(TryRecvError::Empty));
}

#[test]
fn seal_carries_the_digest_that_was_solved() {
    let (mut worker, worker_tx, seal_rx) = worker(0);
    worker_tx.send(WorkerMessage::NewWork(work(1))).unwrap();
    worker_tx.send(WorkerMessage::NewWork(work(2))).unwrap();
    let plan = worker.begin_tick();
    assert_eq!(plan, TickPlan::Solve(SolveRequest { arch: Arch::Scalar, work: work(1) }));
    worker.poll_worker_message();
    assert_eq!(worker.state().current_work, Some(work(2)));
    worker.complete_solve(&work(1).pow_hash, 8, 1);
    assert_eq!(seal_rx.try_recv(), Ok(Seal { pow_hash: work(1).pow_hash, nonce: 8 }));
}

#[test]
fn work_units_add_up_while_solving() {
    let (mut worker, worker_tx, _seal_rx) = worker(0);
    worker_tx.send(WorkerMessage::NewWork(work(1))).unwrap();
    let mut expected: u64 = 0;
    let mut reported = false;
    for _ in 0..3 {
        worker.begin_tick();
        let outcome = worker.complete_solve(&work(1).pow_hash, 0, 250);
        match outcome.report {
            Some(report) => {
                assert_eq!(report.work_units, expected + 250);
                expected = 0;
                reported = true;
            }
            None => expected += 250,
        }
        assert_eq!(worker.window().work_units, expected);
    }
    if !reported {
        assert_eq!(worker.window(), ReportWindow { work_units: 750, window_start: 0 });
    }
}

#[test]
fn stop_discards_the_window() {
    let (mut worker, worker_tx, _seal_rx) = worker(0);
    worker_tx.send(WorkerMessage::NewWork(work(1))).unwrap();
    worker.begin_tick();
    let outcome = worker.complete_solve(&work(1).pow_hash, 0, 4000);
    if outcome.report.is_none() {
        assert_eq!(worker.window().work_units, 4000);
    }
    worker_tx.send(WorkerMessage::Stop).unwrap();
    assert_eq!(worker.begin_tick(), TickPlan::Sleep { millis: 100 });
    assert_eq!(worker.window().work_units, 0);
    let first_start = worker.window().window_start;
    assert_eq!(worker.begin_tick(), TickPlan::Sleep { millis: 100 });
    assert_eq!(worker.window().work_units, 0);
    assert!(worker.window().window_start >= first_start);
}

#[test]
fn report_comes_once_the_interval_has_passed() {
    let begun = Instant::now();
    let (mut worker, worker_tx, _seal_rx) = worker(0);
    worker_tx.send(WorkerMessage::NewWork(work(1))).unwrap();
    worker.begin_tick();
    let mut calls: u64 = 0;
    let mut found: u64 = 0;
    let report = loop {
        assert!(begun.elapsed() < Duration::from_secs(10));
        calls += 1;
        let nonce: u128 = if calls % 1000 == 0 { calls as u128 } else { 0 };
        if nonce != 0 {
            found += 1;
        }
        let outcome = worker.complete_solve(&work(1).pow_hash, nonce, 3);
        if let Some(report) = outcome.report {
            break report;
        }
        assert_eq!(worker.window(), ReportWindow { work_units: calls * 3, window_start: 0 });
    };
    assert!(begun.elapsed() > Duration::from_millis(300));
    assert_eq!(report.work_units, calls * 3);
    assert_eq!(report.candidates_found, found);
    assert!(report.elapsed_nanos > 300_000_000);
    assert!(report.elapsed_nanos < 10_000_000_000);
    assert_eq!(worker.window().work_units, 0);
    assert!(worker.window().window_start > 300_000_000);
    assert_eq!(worker.window().window_start, report.elapsed_nanos);
    assert_eq!(worker.state().candidates_found, found);
}
