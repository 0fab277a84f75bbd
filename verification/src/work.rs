//! The values a worker exchanges with its surroundings.

use vstd::prelude::*;

verus! {

/// Largest architecture id that names a hashing routine.
pub const MAX_ARCH_ID: u32 = 2;

/// One unit of mining work: the digest of a block header and the threshold
/// that the hash of a solution must not exceed.
///
/// The threshold is a 256-bit unsigned integer, held as its 32 big-endian
/// bytes, which is the form the hashing routine takes it in.
#[derive(Clone, Copy, Debug, PartialEq, Eq)]
pub struct WorkItem {
    pub pow_hash: [u8; 32],
    pub target: [u8; 32],
}

/// A candidate solution: the digest that was hashed and the nonce found for it.
#[derive(Clone, Copy, Debug, PartialEq, Eq)]
pub struct Seal {
    pub pow_hash: [u8; 32],
    pub nonce: u128,
}

/// A command from the dispatcher to one worker.
#[derive(Clone, Copy, Debug, PartialEq, Eq)]
pub enum WorkerMessage {
    /// Replace the work item, whether the worker runs or not.
    NewWork(WorkItem),
    /// Resume solving with the work item held, if any.
    Start,
    /// Stop issuing solve calls.
    Stop,
}

/// The hashing routine a worker was built for.
#[derive(Clone, Copy, Debug, PartialEq, Eq)]
pub enum Arch {
    Scalar,
    Vector256,
    Vector512,
}

impl Arch {
    /// The architecture that an id names, if it names one.
    pub open spec fn of_id(id: u32) -> Option<Arch> {
        if id == 0 {
            Some(Arch::Scalar)
        } else if id == 1 {
            Some(Arch::Vector256)
        } else if id == 2 {
            Some(Arch::Vector512)
        } else {
            None
        }
    }

    /// Looks an architecture up by its id: `Some` for 0, 1 and 2, `None` above.
    pub fn from_id(id: u32) -> (arch: Option<Arch>)
        ensures
            arch == Arch::of_id(id),
            arch.is_some() <==> id <= MAX_ARCH_ID,
    {
        if id == 0 {
            Some(Arch::Scalar)
        } else if id == 1 {
            Some(Arch::Vector256)
        } else if id == 2 {
            Some(Arch::Vector512)
        } else {
            None
        }
    }
}

} // verus!
