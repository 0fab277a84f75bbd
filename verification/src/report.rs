//! Throughput accounting: the window a worker collects work units in, and the
//! report it closes a window with.
//!
//! Time is a count of nanoseconds on the worker's own clock, which starts at 0
//! when the worker is made.

use vstd::arithmetic::div_mod::{lemma_fundamental_div_mod, lemma_mod_bound};
use vstd::prelude::*;

verus! {

/// A window is reported once more than this many milliseconds have passed
/// since it was opened.
pub const REPORT_INTERVAL_MILLIS: u128 = 300;

/// Nanoseconds in a millisecond.
pub const NANOS_PER_MILLI: u128 = 1_000_000;

/// Thousandths of a hash per second that one hash per nanosecond amounts to.
pub const MILLI_HASHES_PER_HASH_NANO: u128 = 1_000_000_000_000;

/// What a worker reports when it closes a window.
#[derive(Clone, Copy, Debug, PartialEq, Eq)]
pub struct Report {
    /// Work units done in the window.
    pub work_units: u64,
    /// Length of the window, in nanoseconds.
    pub elapsed_nanos: u128,
    /// Candidates found since the worker was made.
    pub candidates_found: u64,
}

/// The accounting of the window that is open.
#[derive(Clone, Copy, Debug, PartialEq, Eq)]
pub struct ReportWindow {
    /// Work units done since the window was opened.
    pub work_units: u64,
    /// When the window was opened.
    pub window_start: u128,
}

/// The hash rate of `work_units` done in `elapsed_nanos`, in thousandths of a
/// hash per second, rounded down.
pub open spec fn rate_milli(work_units: nat, elapsed_nanos: nat) -> nat
    recommends
        elapsed_nanos > 0,
{
    (work_units * MILLI_HASHES_PER_HASH_NANO as nat) / elapsed_nanos
}

impl Report {
    /// The hash rate of the window, work units by seconds, in thousandths of a
    /// hash per second and rounded down: the rate lies between the result
    /// and the result plus one.
    pub fn hash_rate_milli(&self) -> (rate: u128)
        requires
            self.elapsed_nanos > 0,
        ensures
            rate == rate_milli(self.work_units as nat, self.elapsed_nanos as nat),
            rate * self.elapsed_nanos <= self.work_units * MILLI_HASHES_PER_HASH_NANO,
            self.work_units * MILLI_HASHES_PER_HASH_NANO < (rate + 1) * self.elapsed_nanos,
    {
        let scaled: u128 = (self.work_units as u128) * MILLI_HASHES_PER_HASH_NANO;
        let rate: u128 = scaled / self.elapsed_nanos;
        proof {
            let d = self.elapsed_nanos as int;
            lemma_fundamental_div_mod(scaled as int, d);
            lemma_mod_bound(scaled as int, d);
            assert(d * (scaled as int / d) == (scaled as int / d) * d) by (nonlinear_arith);
            assert((rate + 1) * d == rate * d + d) by (nonlinear_arith);
        }
        rate
    }
}

impl ReportWindow {
    /// An empty window opened at `now`.
    pub open spec fn starting_at(now: u128) -> ReportWindow {
        ReportWindow { work_units: 0, window_start: now }
    }

    /// The time from the opening of the window to `now`; 0 if the clock went
    /// backwards.
    pub open spec fn elapsed_at(self, now: u128) -> u128 {
        if now >= self.window_start {
            (now - self.window_start) as u128
        } else {
            0
        }
    }

    /// Whether the window is to be reported at `now`: more than
    /// `REPORT_INTERVAL_MILLIS` milliseconds have passed, be it by a single
    /// nanosecond.
    pub open spec fn due_at(self, now: u128) -> bool {
        self.elapsed_at(now) > REPORT_INTERVAL_MILLIS * NANOS_PER_MILLI
    }

    /// The window with the work units of one more solve call.
    pub open spec fn credited(self, work_units: u32) -> ReportWindow
        recommends
            self.work_units + work_units <= u64::MAX,
    {
        ReportWindow { work_units: (self.work_units + work_units) as u64, ..self }
    }

    /// The report that closes the window at `now`, if one is due.
    pub open spec fn report_at(self, now: u128, candidates_found: u64) -> Option<Report> {
        if self.due_at(now) {
            Some(
                Report {
                    work_units: self.work_units,
                    elapsed_nanos: self.elapsed_at(now),
                    candidates_found,
                },
            )
        } else {
            None
        }
    }

    /// The window after the check at `now`: a new, empty one if a report was
    /// due, and else the same.
    pub open spec fn closed_at(self, now: u128) -> ReportWindow {
        if self.due_at(now) {
            ReportWindow::starting_at(now)
        } else {
            self
        }
    }

    /// Opens an empty window at `now`.
    pub fn new(now: u128) -> (window: ReportWindow)
        ensures
            window == ReportWindow::starting_at(now),
    {
        ReportWindow { work_units: 0, window_start: now }
    }

    /// Throws away what the window has collected and opens it anew at `now`.
    pub fn reset(&mut self, now: u128)
        ensures
            *final(self) == ReportWindow::starting_at(now),
    {
        self.work_units = 0;
        self.window_start = now;
    }

    /// Adds the work units of one solve call.  The start of the window stays.
    pub fn credit(&mut self, work_units: u32)
        requires
            old(self).work_units + work_units <= u64::MAX,
        ensures
            *final(self) == old(self).credited(work_units),
            final(self).work_units == old(self).work_units + work_units,
            final(self).window_start == old(self).window_start,
    {
        self.work_units = self.work_units + work_units as u64;
    }

    /// The time from the opening of the window to `now`.
    pub fn elapsed(&self, now: u128) -> (elapsed: u128)
        ensures
            elapsed == self.elapsed_at(now),
    {
        if now >= self.window_start {
            now - self.window_start
        } else {
            0
        }
    }

    /// Closes the window at `now` if it is due.  Then the report holds what the
    /// window collected, its length and the given total of candidates, and a
    /// new, empty window starts at `now`.  Otherwise nothing changes.
    pub fn close_if_due(&mut self, now: u128, candidates_found: u64) -> (report: Option<Report>)
        ensures
            report == old(self).report_at(now, candidates_found),
            *final(self) == old(self).closed_at(now),
            report.is_some() <==> old(self).due_at(now),
            report.is_some() ==> final(self).work_units == 0,
            report.is_none() ==> *final(self) == *old(self),
            report matches Some(r) ==> r.elapsed_nanos > REPORT_INTERVAL_MILLIS * NANOS_PER_MILLI,
    {
        let elapsed: u128 = self.elapsed(now);
        if elapsed > REPORT_INTERVAL_MILLIS * NANOS_PER_MILLI {
            let report = Report { work_units: self.work_units, elapsed_nanos: elapsed, candidates_found };
            self.reset(now);
            Some(report)
        } else {
            None
        }
    }
}

} // verus!
