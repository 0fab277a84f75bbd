//! The worker itself: the state machine and the report window, together with
//! the channels and the clock that feed them.
//!
//! One tick of the control loop is `begin_tick`, then the hashing routine if the
//! plan asks for it, then `complete_solve` with what the routine returned.
//! Between the two halves the worker looks at no message, so the solve call
//! always ends on the work item it began on.

use crate::report::{Report, ReportWindow};
use crate::state::{seal_of, TickPlan, WorkerState};
use crate::work::{Arch, Seal, WorkerMessage, MAX_ARCH_ID};
use crossbeam_channel::{Receiver, Sender, TryRecvError};
use std::time::Instant;
use vstd::prelude::*;

verus! {

/// What a worker is, apart from its channels and its clock.
pub struct WorkerView {
    pub state: WorkerState,
    pub window: ReportWindow,
}

/// What the second half of a tick did with the result of a solve call.
#[derive(Clone, Copy, Debug, PartialEq, Eq)]
pub struct SolveOutcome {
    /// The seal that was handed to the result channel, if the nonce was not 0.
    pub seal: Option<Seal>,
    /// Whether the result channel took the seal.  It does not once its
    /// consumer is gone; the worker goes on all the same.
    pub delivered: bool,
    /// The report that closed the window, if one was due.
    pub report: Option<Report>,
}

/// A mining worker for the CPU routines.
pub struct EaglesongCpu {
    state: WorkerState,
    window: ReportWindow,
    seal_tx: Sender<Seal>,
    worker_rx: Receiver<WorkerMessage>,
    epoch: Instant,
}

impl WorkerView {
    /// The worker after the first half of a tick in which the control channel
    /// yielded `polled` and, if the worker is then stopped, the clock read
    /// `now`.  A stopped worker throws its window away.
    pub open spec fn begun(self, polled: Option<WorkerMessage>, now: u128) -> WorkerView {
        let state = self.state.polled(polled);
        WorkerView {
            state,
            window: if state.running {
                self.window
            } else {
                ReportWindow::starting_at(now)
            },
        }
    }

    /// The worker after the second half of a tick in which the solve call
    /// returned `nonce` and `work_units` and the clock then read `now`.
    pub open spec fn solved(self, nonce: u128, work_units: u32, now: u128) -> WorkerView
        recommends
            self.window.work_units + work_units <= u64::MAX,
            nonce != 0 ==> self.state.candidates_found < u64::MAX,
    {
        WorkerView {
            state: self.state.counted(nonce),
            window: self.window.credited(work_units).closed_at(now),
        }
    }

    /// The report that the second half of that tick emits, if any: over the
    /// window with the new work units, and with the new total of candidates.
    pub open spec fn reported(self, nonce: u128, work_units: u32, now: u128) -> Option<Report>
        recommends
            self.window.work_units + work_units <= u64::MAX,
            nonce != 0 ==> self.state.candidates_found < u64::MAX,
    {
        self.window.credited(work_units).report_at(
            now,
            self.state.counted(nonce).candidates_found,
        )
    }
}

impl View for EaglesongCpu {
    type V = WorkerView;

    closed spec fn view(&self) -> WorkerView {
        WorkerView { state: self.state, window: self.window }
    }
}

/// The message that a look at the control channel yielded.  An empty channel
/// and a disconnected one both count as no message.
pub fn message_of(polled: Result<WorkerMessage, TryRecvError>) -> (msg: Option<WorkerMessage>)
    ensures
        polled matches Ok(m) ==> msg == Some(m),
        polled is Err ==> msg.is_none(),
{
    match polled {
        Ok(m) => Some(m),
        Err(_) => None,
    }
}

impl EaglesongCpu {
    /// The endpoint that seals are sent to.
    pub closed spec fn result_channel(&self) -> Sender<Seal> {
        self.seal_tx
    }

    /// The endpoint that control messages come from.
    pub closed spec fn control_channel(&self) -> Receiver<WorkerMessage> {
        self.worker_rx
    }

    /// Makes a worker for the routine that `arch` names, on the two endpoints
    /// given.  It starts enabled, without work, with nothing found and with an
    /// empty window opened at time 0 of its clock, which starts now.
    ///
    /// Seals are sent with a send that waits for room.  On an unbounded result
    /// channel that never happens; on a bounded or zero-capacity one, a tick
    /// that has a seal to send waits while the channel is full and its
    /// consumer lives, and no contract here says how long.  Give the worker an
    /// unbounded channel where a tick must never wait.
    pub fn new(seal_tx: Sender<Seal>, worker_rx: Receiver<WorkerMessage>, arch: u32) -> (worker:
        EaglesongCpu)
        requires
            arch <= MAX_ARCH_ID,
        ensures
            Arch::of_id(arch) matches Some(a) && worker@.state == WorkerState::initial(a),
            worker@.window == ReportWindow::starting_at(0),
            worker.result_channel() == seal_tx,
            worker.control_channel() == worker_rx,
    {
        EaglesongCpu {
            state: WorkerState::new(Arch::from_id(arch).unwrap()),
            window: ReportWindow::new(0),
            seal_tx,
            worker_rx,
            epoch: Instant::now(),
        }
    }

    /// The state of the worker.
    pub fn state(&self) -> (state: WorkerState)
        ensures
            state == self@.state,
    {
        self.state
    }

    /// The window that is open.
    pub fn window(&self) -> (window: ReportWindow)
        ensures
            window == self@.window,
    {
        self.window
    }

    /// Nanoseconds on the worker's clock.
    fn clock(&self) -> (now: u128)
    {
        self.epoch.elapsed().as_nanos()
    }

    /// Looks at the control channel once, without waiting, and applies the
    /// message if there is one.  Whatever the channel yields, the state is the
    /// old one after at most one message, and the window is untouched.
    pub fn poll_worker_message(&mut self)
        ensures
            exists|polled: Option<WorkerMessage>|
                final(self)@.state == #[trigger] old(self)@.state.polled(polled),
            final(self)@.window == old(self)@.window,
            final(self).result_channel() == old(self).result_channel(),
            final(self).control_channel() == old(self).control_channel(),
    {
        let polled = message_of(self.worker_rx.try_recv());
        match polled {
            Some(msg) => {
                self.state.receive(msg);
            },
            None => {},
        }
        assert(self@.state == old(self)@.state.polled(polled));
    }

    /// The first half of a tick: looks for one message, applies it, and says
    /// what the rest of the tick is.  A stopped worker throws its window away
    /// and opens a new one at the time the clock reads.
    ///
    /// Whatever the channel and the clock yield, the worker is the old one
    /// after `begun`, and the plan is the plan of its new state.
    pub fn begin_tick(&mut self) -> (plan: TickPlan)
        ensures
            exists|polled: Option<WorkerMessage>, now: u128|
                final(self)@ == #[trigger] old(self)@.begun(polled, now),
            plan == final(self)@.state.plan_of(),
            final(self).result_channel() == old(self).result_channel(),
            final(self).control_channel() == old(self).control_channel(),
    {
        let ghost before = self@;
        self.poll_worker_message();
        let ghost polled = choose|polled: Option<WorkerMessage>|
            self@.state == #[trigger] before.state.polled(polled);
        let plan = self.state.plan();
        match plan {
            TickPlan::Sleep { millis: _ } => {
                let now: u128 = self.clock();
                self.window.reset(now);
                assert(self@ == before.begun(polled, now));
            },
            _ => {
                assert(self@ == before.begun(polled, 0));
            },
        }
        plan
    }

    /// The second half of a tick: takes in the nonce and the work units that
    /// the hashing routine returned for the digest `pow_hash`, which is that of
    /// the request that `begin_tick` planned.
    ///
    /// A non-zero nonce is counted and sent once to the result channel, as a
    /// seal on that digest; it is counted whether or not the channel takes it.
    /// The work units go to the window, and the window is closed with a report
    /// if the clock says that one is due.  The counters must have room for the
    /// new candidate and the new work units.
    ///
    /// The send waits while a bounded or zero-capacity result channel is full:
    /// with a seal to send, the call returns only once the channel has taken
    /// the seal or has lost its last consumer.  Without a seal, and on an
    /// unbounded channel, it never waits.
    pub fn complete_solve(&mut self, pow_hash: &[u8; 32], nonce: u128, work_units: u32) -> (outcome:
        SolveOutcome)
        requires
            old(self)@.window.work_units + work_units <= u64::MAX,
            nonce != 0 ==> old(self)@.state.candidates_found < u64::MAX,
        ensures
            outcome.seal == seal_of(*pow_hash, nonce),
            outcome.delivered ==> outcome.seal.is_some(),
            final(self)@.state == old(self)@.state.counted(nonce),
            exists|now: u128|
                (final(self)@ == #[trigger] old(self)@.solved(nonce, work_units, now)
                    && outcome.report == old(self)@.reported(nonce, work_units, now)),
            final(self).result_channel() == old(self).result_channel(),
            final(self).control_channel() == old(self).control_channel(),
    {
        let seal = self.state.record_nonce(pow_hash, nonce);
        let delivered = match seal {
            Some(s) => match self.seal_tx.send(s) {
                Ok(_) => true,
                Err(_) => false,
            },
            None => false,
        };
        self.window.credit(work_units);
        let now: u128 = self.clock();
        let report = self.window.close_if_due(now, self.state.candidates_found);
        assert(self@ == old(self)@.solved(nonce, work_units, now));
        SolveOutcome { seal, delivered, report }
    }
}

} // verus!
