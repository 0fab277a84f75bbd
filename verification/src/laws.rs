//! What holds of the worker over whole runs of messages and ticks.
//!
//! Each function below is a theorem over the spec functions that the
//! contracts of the worker are written in.

use crate::report::{
    rate_milli, Report, ReportWindow, MILLI_HASHES_PER_HASH_NANO, NANOS_PER_MILLI,
    REPORT_INTERVAL_MILLIS,
};
use crate::state::{
    seal_of, Phase, SolveRequest, TickPlan, WorkerState, STOPPED_SLEEP_MILLIS,
};
use crate::work::{Arch, Seal, WorkItem, WorkerMessage};
use crate::worker::WorkerView;
use vstd::arithmetic::div_mod::{lemma_fundamental_div_mod, lemma_mod_bound};
use vstd::prelude::*;

verus! {

/// Every message of the run is `Start` or `Stop`.
pub open spec fn only_start_stop(msgs: Seq<WorkerMessage>) -> bool {
    forall|i: int|
        0 <= i < msgs.len() ==> (#[trigger] msgs[i]) is Start || msgs[i] is Stop
}

/// No message of the run is `Start`.
pub open spec fn no_start(msgs: Seq<WorkerMessage>) -> bool {
    forall|i: int| 0 <= i < msgs.len() ==> !((#[trigger] msgs[i]) is Start)
}

/// The work item of the last `NewWork` in the run, if there is one.
pub open spec fn last_new_work(msgs: Seq<WorkerMessage>) -> Option<WorkItem>
    decreases msgs.len(),
{
    if msgs.len() == 0 {
        None
    } else {
        match msgs.last() {
            WorkerMessage::NewWork(work) => Some(work),
            _ => last_new_work(msgs.drop_last()),
        }
    }
}

/// Whether the last `Start` or `Stop` in the run is a `Start`, if there is
/// one of the two.
pub open spec fn last_switch(msgs: Seq<WorkerMessage>) -> Option<bool>
    decreases msgs.len(),
{
    if msgs.len() == 0 {
        None
    } else {
        match msgs.last() {
            WorkerMessage::Start => Some(true),
            WorkerMessage::Stop => Some(false),
            WorkerMessage::NewWork(_) => last_switch(msgs.drop_last()),
        }
    }
}

/// The number of nonces in the run that are not 0.
pub open spec fn nonzero_count(nonces: Seq<u128>) -> nat
    decreases nonces.len(),
{
    if nonces.len() == 0 {
        0
    } else {
        nonzero_count(nonces.drop_last()) + if nonces.last() != 0 {
            1nat
        } else {
            0nat
        }
    }
}

/// The seals that a run of solve calls on `pow_hash` makes, in the order of
/// the calls, when the calls returned `nonces`.
pub open spec fn seals_made(pow_hash: [u8; 32], nonces: Seq<u128>) -> Seq<Seal>
    decreases nonces.len(),
{
    if nonces.len() == 0 {
        Seq::empty()
    } else {
        match seal_of(pow_hash, nonces.last()) {
            Some(seal) => seals_made(pow_hash, nonces.drop_last()).push(seal),
            None => seals_made(pow_hash, nonces.drop_last()),
        }
    }
}

/// The state after a run of solve calls that returned `nonces`, in that order.
pub open spec fn counted_all(state: WorkerState, nonces: Seq<u128>) -> WorkerState
    decreases nonces.len(),
{
    if nonces.len() == 0 {
        state
    } else {
        counted_all(state, nonces.drop_last()).counted(nonces.last())
    }
}

/// A worker is made enabled and without work: it neither solves nor sleeps
/// until work arrives.
pub proof fn initial_state_is_running_without_work(arch: Arch)
    ensures
        WorkerState::initial(arch).phase_of() == Phase::RunningNoWork,
        WorkerState::initial(arch).plan_of() == TickPlan::Idle,
        WorkerState::initial(arch).candidates_found == 0,
        WorkerState::initial(arch).arch == arch,
{
}

/// After any run of messages the worker holds the work item of the last
/// `NewWork` among them, or the one it held before if there was none, and is
/// enabled as the last `Start` or `Stop` among them says, or as it was before
/// if there was none.  No message touches the routine or the candidate count.
pub proof fn messages_decide_work_and_switch(state: WorkerState, msgs: Seq<WorkerMessage>)
    ensures
        state.received_all(msgs).current_work == (match last_new_work(msgs) {
            Some(work) => Some(work),
            None => state.current_work,
        }),
        state.received_all(msgs).running == (match last_switch(msgs) {
            Some(on) => on,
            None => state.running,
        }),
        state.received_all(msgs).arch == state.arch,
        state.received_all(msgs).candidates_found == state.candidates_found,
    decreases msgs.len(),
{
    if msgs.len() > 0 {
        messages_decide_work_and_switch(state, msgs.drop_last());
    }
}

/// `Start` and `Stop` never touch the work item, the candidate count or the
/// routine: after any run of them the worker holds the work it held before,
/// and it is enabled exactly if the last of them was `Start`.
pub proof fn start_stop_keeps_work(state: WorkerState, msgs: Seq<WorkerMessage>)
    requires
        only_start_stop(msgs),
    ensures
        state.received_all(msgs).current_work == state.current_work,
        state.received_all(msgs).candidates_found == state.candidates_found,
        state.received_all(msgs).arch == state.arch,
        msgs.len() > 0 ==> (state.received_all(msgs).running <==> msgs.last() is Start),
        msgs.len() == 0 ==> state.received_all(msgs) == state,
    decreases msgs.len(),
{
    if msgs.len() > 0 {
        let front = msgs.drop_last();
        assert forall|i: int| 0 <= i < front.len() implies (#[trigger] front[i]) is Start
            || front[i] is Stop by {
            assert(front[i] == msgs[i]);
        }
        start_stop_keeps_work(state, front);
        assert(msgs.last() == msgs[msgs.len() - 1]);
    }
}

/// After any run of `Stop` and `Start` messages that ends in `Start`, a
/// worker that held a work item solves again, and on that very item.
pub proof fn start_resumes_held_work(state: WorkerState, msgs: Seq<WorkerMessage>, work: WorkItem)
    requires
        only_start_stop(msgs),
        msgs.len() > 0,
        msgs.last() is Start,
        state.current_work == Some(work),
    ensures
        state.received_all(msgs).plan_of() == TickPlan::Solve(
            SolveRequest { arch: state.arch, work },
        ),
{
    start_stop_keeps_work(state, msgs);
}

/// A run of messages without `Start` leaves a stopped worker stopped, and
/// leaves it holding a work item if it held one.
pub proof fn stays_stopped_without_start(state: WorkerState, msgs: Seq<WorkerMessage>)
    requires
        !state.running,
        no_start(msgs),
    ensures
        !state.received_all(msgs).running,
        state.current_work.is_some() ==> state.received_all(msgs).current_work.is_some(),
        state.received_all(msgs).arch == state.arch,
    decreases msgs.len(),
{
    if msgs.len() > 0 {
        let front = msgs.drop_last();
        assert forall|i: int| 0 <= i < front.len() implies !((#[trigger] front[i]) is Start) by {
            assert(front[i] == msgs[i]);
        }
        stays_stopped_without_start(state, front);
        assert(msgs.last() == msgs[msgs.len() - 1]);
    }
}

/// `NewWork` that reaches a stopped worker replaces the work item at once,
/// but no solve call is planned for it, nor after any further messages, until
/// a `Start` arrives.  The tick after that `Start` solves, on the work item
/// that was set last: the new one, unless a later `NewWork` replaced it.
pub proof fn new_work_while_stopped_waits_for_start(
    state: WorkerState,
    work: WorkItem,
    msgs: Seq<WorkerMessage>,
)
    requires
        !state.running,
        no_start(msgs),
    ensures
        state.received(WorkerMessage::NewWork(work)).current_work == Some(work),
        !(state.received(WorkerMessage::NewWork(work)).plan_of() is Solve),
        !(state.received(WorkerMessage::NewWork(work)).received_all(msgs).plan_of() is Solve),
        state.received(WorkerMessage::NewWork(work)).received_all(msgs).received(
            WorkerMessage::Start,
        ).plan_of() == TickPlan::Solve(
            SolveRequest {
                arch: state.arch,
                work: match last_new_work(msgs) {
                    Some(later) => later,
                    None => work,
                },
            },
        ),
{
    let stopped = state.received(WorkerMessage::NewWork(work));
    stays_stopped_without_start(stopped, msgs);
    messages_decide_work_and_switch(stopped, msgs);
}

/// A tick that takes in `Stop` solves nothing: it plans a rest of
/// `STOPPED_SLEEP_MILLIS` and opens an empty window, whatever the worker held
/// and did before.
pub proof fn stop_tick_sleeps(worker: WorkerView, now: u128)
    ensures
        worker.begun(Some(WorkerMessage::Stop), now).state.plan_of() == (TickPlan::Sleep {
            millis: STOPPED_SLEEP_MILLIS,
        }),
        worker.begun(Some(WorkerMessage::Stop), now).window == ReportWindow::starting_at(now),
        worker.begun(Some(WorkerMessage::Stop), now).state.current_work
            == worker.state.current_work,
        worker.begun(Some(WorkerMessage::Stop), now).state.candidates_found
            == worker.state.candidates_found,
{
}

/// The window is emptied when a report is emitted and when a tick finds the
/// worker stopped, and at no other time: a tick that finds the worker enabled
/// leaves the window as it was, and a solve call without a report adds its
/// work units to the window and keeps the start of the window.
pub proof fn window_resets_only_on_report_or_stop(
    worker: WorkerView,
    polled: Option<WorkerMessage>,
    nonce: u128,
    work_units: u32,
    now: u128,
)
    requires
        worker.window.work_units + work_units <= u64::MAX,
    ensures
        worker.reported(nonce, work_units, now).is_some() ==> worker.solved(
            nonce,
            work_units,
            now,
        ).window == ReportWindow::starting_at(now),
        !worker.begun(polled, now).state.running ==> worker.begun(polled, now).window
            == ReportWindow::starting_at(now),
        worker.begun(polled, now).state.running ==> worker.begun(polled, now).window
            == worker.window,
        worker.reported(nonce, work_units, now).is_none() ==> ({
            &&& worker.solved(nonce, work_units, now).window.work_units == worker.window.work_units
                + work_units
            &&& worker.solved(nonce, work_units, now).window.window_start
                == worker.window.window_start
        }),
{
}

/// A solve call that returns within `REPORT_INTERVAL_MILLIS` of the start of
/// the window emits no report: the window goes on into the next tick with
/// the same start and with the work units of the call added.  This is so at
/// exactly `REPORT_INTERVAL_MILLIS`, and whenever the clock reads earlier than
/// the start of the window.
pub proof fn open_window_is_carried_over(
    worker: WorkerView,
    nonce: u128,
    work_units: u32,
    now: u128,
)
    requires
        worker.window.work_units + work_units <= u64::MAX,
        now - worker.window.window_start <= REPORT_INTERVAL_MILLIS * NANOS_PER_MILLI,
    ensures
        worker.reported(nonce, work_units, now).is_none(),
        worker.solved(nonce, work_units, now).window.work_units == worker.window.work_units
            + work_units,
        worker.solved(nonce, work_units, now).window.window_start == worker.window.window_start,
{
}

/// A solve call that returns more than `REPORT_INTERVAL_MILLIS` after the
/// start of the window, be it by a nanosecond, emits a report: over the work
/// units of the window with those of the call, over the time since the start
/// of the window, and with the count of candidates after the call.  The next
/// window is empty and starts at the time of the report.  The hash rate of
/// the report is those work units by that time, rounded down to a thousandth
/// of a hash per second.
pub proof fn overdue_window_is_reported(
    worker: WorkerView,
    nonce: u128,
    work_units: u32,
    now: u128,
)
    requires
        worker.window.work_units + work_units <= u64::MAX,
        nonce != 0 ==> worker.state.candidates_found < u64::MAX,
        now - worker.window.window_start > REPORT_INTERVAL_MILLIS * NANOS_PER_MILLI,
    ensures
        worker.reported(nonce, work_units, now) == Some(
            Report {
                work_units: (worker.window.work_units + work_units) as u64,
                elapsed_nanos: (now - worker.window.window_start) as u128,
                candidates_found: worker.solved(nonce, work_units, now).state.candidates_found,
            },
        ),
        worker.solved(nonce, work_units, now).window == ReportWindow::starting_at(now),
        rate_milli(
            (worker.window.work_units + work_units) as nat,
            (now - worker.window.window_start) as nat,
        ) * (now - worker.window.window_start) <= (worker.window.work_units + work_units)
            * MILLI_HASHES_PER_HASH_NANO,
        (worker.window.work_units + work_units) * MILLI_HASHES_PER_HASH_NANO < (rate_milli(
            (worker.window.work_units + work_units) as nat,
            (now - worker.window.window_start) as nat,
        ) + 1) * (now - worker.window.window_start),
{
    let units = (worker.window.work_units + work_units) as int;
    let scaled = units * MILLI_HASHES_PER_HASH_NANO as int;
    let elapsed = (now - worker.window.window_start) as int;
    lemma_fundamental_div_mod(scaled, elapsed);
    lemma_mod_bound(scaled, elapsed);
    assert(elapsed * (scaled / elapsed) == (scaled / elapsed) * elapsed) by (nonlinear_arith);
    assert((scaled / elapsed + 1) * elapsed == (scaled / elapsed) * elapsed + elapsed)
        by (nonlinear_arith);
}

/// A report carries all the work units of its window, the one of the solve
/// call that closed it included, together with the length of the window and
/// the count of candidates as it stands after that call.
pub proof fn report_holds_the_whole_window(
    worker: WorkerView,
    nonce: u128,
    work_units: u32,
    now: u128,
)
    requires
        worker.window.work_units + work_units <= u64::MAX,
        nonce != 0 ==> worker.state.candidates_found < u64::MAX,
    ensures
        worker.reported(nonce, work_units, now) matches Some(report) ==> ({
            &&& report.work_units == worker.window.work_units + work_units
            &&& report.elapsed_nanos == now - worker.window.window_start
            &&& report.elapsed_nanos > REPORT_INTERVAL_MILLIS * NANOS_PER_MILLI
            &&& report.candidates_found == worker.solved(
                nonce,
                work_units,
                now,
            ).state.candidates_found
        }),
        worker.reported(nonce, work_units, now).is_some() <==> now - worker.window.window_start
            > REPORT_INTERVAL_MILLIS * NANOS_PER_MILLI,
{
}

/// A non-zero nonce makes exactly one seal, on the digest it was found for,
/// and raises the count of candidates by exactly one; the nonce 0 makes no
/// seal and leaves the state alone.  Whether the seal can be delivered plays
/// no part in either.
pub proof fn nonzero_nonce_counts_once(state: WorkerState, pow_hash: [u8; 32], nonce: u128)
    requires
        state.candidates_found < u64::MAX,
    ensures
        nonce != 0 ==> ({
            &&& seal_of(pow_hash, nonce) == Some(Seal { pow_hash, nonce })
            &&& state.counted(nonce).candidates_found == state.candidates_found + 1
        }),
        nonce == 0 ==> ({
            &&& seal_of(pow_hash, nonce).is_none()
            &&& state.counted(nonce) == state
        }),
        state.counted(nonce).running == state.running,
        state.counted(nonce).current_work == state.current_work,
        state.counted(nonce).arch == state.arch,
{
}

/// Over a run of solve calls the count of candidates rises by the number of
/// non-zero nonces among the results, and nothing else of the state changes.
pub proof fn candidates_count_nonzero_nonces(state: WorkerState, nonces: Seq<u128>)
    requires
        state.candidates_found + nonzero_count(nonces) <= u64::MAX,
    ensures
        counted_all(state, nonces).candidates_found == state.candidates_found + nonzero_count(
            nonces,
        ),
        counted_all(state, nonces).running == state.running,
        counted_all(state, nonces).current_work == state.current_work,
        counted_all(state, nonces).arch == state.arch,
    decreases nonces.len(),
{
    if nonces.len() > 0 {
        candidates_count_nonzero_nonces(state, nonces.drop_last());
    }
}

/// A run of solve calls makes one seal for each non-zero nonce among the
/// results and none for a nonce 0: the seals are as many as the non-zero
/// nonces, each is on the digest that was solved, and each carries a non-zero
/// nonce.  A call adds its seal, if it makes one, behind those of the calls
/// before it.
pub proof fn one_seal_for_each_nonzero_nonce(pow_hash: [u8; 32], nonces: Seq<u128>)
    ensures
        seals_made(pow_hash, nonces).len() == nonzero_count(nonces),
        forall|i: int|
            0 <= i < seals_made(pow_hash, nonces).len() ==> (#[trigger] seals_made(
                pow_hash,
                nonces,
            )[i]).pow_hash == pow_hash && seals_made(pow_hash, nonces)[i].nonce != 0,
        nonces.len() > 0 && nonces.last() != 0 ==> seals_made(pow_hash, nonces) == seals_made(
            pow_hash,
            nonces.drop_last(),
        ).push(Seal { pow_hash, nonce: nonces.last() }),
        nonces.len() > 0 && nonces.last() == 0 ==> seals_made(pow_hash, nonces) == seals_made(
            pow_hash,
            nonces.drop_last(),
        ),
    decreases nonces.len(),
{
    if nonces.len() > 0 {
        one_seal_for_each_nonzero_nonce(pow_hash, nonces.drop_last());
    }
}

/// No solve call is planned while the worker holds no work item, enabled or
/// not: a solve call is planned exactly when the worker is enabled and holds
/// one, and then on that item and on the worker's own routine.
pub proof fn no_solve_without_work(state: WorkerState)
    ensures
        state.current_work.is_none() ==> !(state.plan_of() is Solve),
        state.plan_of() is Solve <==> state.running && state.current_work.is_some(),
        state.plan_of() matches TickPlan::Solve(request) ==> ({
            &&& state.current_work == Some(request.work)
            &&& request.arch == state.arch
        }),
        state.plan_of() is Sleep <==> !state.running,
{
}

} // verus!
