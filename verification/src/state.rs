//! The worker state machine: what a worker holds, how a control message
//! changes it, and what the worker does next.

use crate::work::{Arch, Seal, WorkItem, WorkerMessage};
use vstd::prelude::*;

verus! {

/// How long a stopped worker rests before it looks for the next message.
pub const STOPPED_SLEEP_MILLIS: u64 = 100;

/// The three states a worker can be in.
#[derive(Clone, Copy, Debug, PartialEq, Eq)]
pub enum Phase {
    /// No solve call is issued.
    Stopped,
    /// Enabled, but no work item has arrived yet.
    RunningNoWork,
    /// Enabled and holding a work item.
    RunningSolving,
}

/// What one solve call is to be run on: the routine and the work item.
#[derive(Clone, Copy, Debug, PartialEq, Eq)]
pub struct SolveRequest {
    pub arch: Arch,
    pub work: WorkItem,
}

/// What a worker does with the rest of a tick, once it has looked for a
/// message.
#[derive(Clone, Copy, Debug, PartialEq, Eq)]
pub enum TickPlan {
    /// Stopped: rest for `millis` milliseconds, solve nothing.
    Sleep { millis: u64 },
    /// Enabled without work: nothing to do in this tick.
    Idle,
    /// Enabled with work: run the hashing routine once on the request.
    Solve(SolveRequest),
}

/// What a worker owns besides its channels and its report window.
#[derive(Clone, Copy, Debug, PartialEq, Eq)]
pub struct WorkerState {
    /// Whether solve calls are issued.
    pub running: bool,
    /// The work item to solve, once one has arrived.
    pub current_work: Option<WorkItem>,
    /// How many non-zero nonces the hashing routine has returned so far.
    pub candidates_found: u64,
    /// The hashing routine, fixed when the worker is made.
    pub arch: Arch,
}

/// The seal that a nonce stands for: none for the nonce 0, which says that the
/// call found nothing, and else the nonce with the digest it was found for.
pub open spec fn seal_of(pow_hash: [u8; 32], nonce: u128) -> Option<Seal> {
    if nonce == 0 {
        None
    } else {
        Some(Seal { pow_hash, nonce })
    }
}

impl WorkerState {
    /// The state a worker is made in: enabled, without work, nothing found.
    pub open spec fn initial(arch: Arch) -> WorkerState {
        WorkerState { running: true, current_work: None, candidates_found: 0, arch }
    }

    /// The state after one message.  Only `NewWork` touches the work item, and
    /// only `Start` and `Stop` touch `running`.
    pub open spec fn received(self, msg: WorkerMessage) -> WorkerState {
        match msg {
            WorkerMessage::NewWork(work) => WorkerState { current_work: Some(work), ..self },
            WorkerMessage::Start => WorkerState { running: true, ..self },
            WorkerMessage::Stop => WorkerState { running: false, ..self },
        }
    }

    /// The state after one look at the control channel, which yields at most
    /// one message.
    pub open spec fn polled(self, msg: Option<WorkerMessage>) -> WorkerState {
        match msg {
            Some(m) => self.received(m),
            None => self,
        }
    }

    /// The state after a run of messages, applied in the order of receipt.
    pub open spec fn received_all(self, msgs: Seq<WorkerMessage>) -> WorkerState
        decreases msgs.len(),
    {
        if msgs.len() == 0 {
            self
        } else {
            self.received_all(msgs.drop_last()).received(msgs.last())
        }
    }

    /// Which of the three states this is.
    pub open spec fn phase_of(self) -> Phase {
        if !self.running {
            Phase::Stopped
        } else if self.current_work.is_some() {
            Phase::RunningSolving
        } else {
            Phase::RunningNoWork
        }
    }

    /// What the worker does in a tick that finds it in this state.
    pub open spec fn plan_of(self) -> TickPlan {
        match self.phase_of() {
            Phase::Stopped => TickPlan::Sleep { millis: STOPPED_SLEEP_MILLIS },
            Phase::RunningNoWork => TickPlan::Idle,
            Phase::RunningSolving => TickPlan::Solve(
                SolveRequest { arch: self.arch, work: self.current_work.unwrap() },
            ),
        }
    }

    /// The state after a solve call has returned `nonce`: one more candidate
    /// for a non-zero nonce, no change for 0.
    pub open spec fn counted(self, nonce: u128) -> WorkerState
        recommends
            nonce != 0 ==> self.candidates_found < u64::MAX,
    {
        if nonce == 0 {
            self
        } else {
            WorkerState { candidates_found: (self.candidates_found + 1) as u64, ..self }
        }
    }

    /// A worker as it is made.
    pub fn new(arch: Arch) -> (state: WorkerState)
        ensures
            state == WorkerState::initial(arch),
    {
        WorkerState { running: true, current_work: None, candidates_found: 0, arch }
    }

    /// Applies one control message.
    pub fn receive(&mut self, msg: WorkerMessage)
        ensures
            *final(self) == old(self).received(msg),
    {
        match msg {
            WorkerMessage::NewWork(work) => {
                self.current_work = Some(work);
            },
            WorkerMessage::Start => {
                self.running = true;
            },
            WorkerMessage::Stop => {
                self.running = false;
            },
        }
    }

    /// The state the worker is in.
    pub fn phase(&self) -> (phase: Phase)
        ensures
            phase == self.phase_of(),
    {
        if !self.running {
            Phase::Stopped
        } else if self.current_work.is_some() {
            Phase::RunningSolving
        } else {
            Phase::RunningNoWork
        }
    }

    /// Decides what the tick does.  A solve call is planned exactly when the
    /// worker is enabled and holds work, and then on that work and on the
    /// worker's own routine.
    pub fn plan(&self) -> (plan: TickPlan)
        ensures
            plan == self.plan_of(),
            plan is Solve <==> self.running && self.current_work.is_some(),
            plan is Sleep <==> !self.running,
    {
        if !self.running {
            TickPlan::Sleep { millis: STOPPED_SLEEP_MILLIS }
        } else {
            match self.current_work {
                Some(work) => TickPlan::Solve(SolveRequest { arch: self.arch, work }),
                None => TickPlan::Idle,
            }
        }
    }

    /// Takes in the nonce that a solve call on `pow_hash` returned.  A non-zero
    /// nonce is counted and comes back as the seal to publish; the nonce 0
    /// changes nothing and yields no seal.
    pub fn record_nonce(&mut self, pow_hash: &[u8; 32], nonce: u128) -> (seal: Option<Seal>)
        requires
            nonce != 0 ==> old(self).candidates_found < u64::MAX,
        ensures
            seal == seal_of(*pow_hash, nonce),
            *final(self) == old(self).counted(nonce),
            nonce != 0 ==> final(self).candidates_found == old(self).candidates_found + 1,
            nonce == 0 ==> *final(self) == *old(self),
    {
        if nonce != 0 {
            self.candidates_found = self.candidates_found + 1;
            Some(Seal { pow_hash: *pow_hash, nonce })
        } else {
            None
        }
    }
}

} // verus!
