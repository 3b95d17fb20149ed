//! The throughput tracker: a counter of completed responses and the start of
//! the current measuring window. Every completion goes through one `&mut`
//! call, so the read of the window start, the increment, the report and the
//! reset happen as one step that nothing can interleave with.

use crate::clock::millis_of_reading;
use crate::clock::reading_millis;
use crate::text::decimal;
use crate::text::decimal_string;
use std::time::Duration;
use std::time::SystemTime;
use std::time::SystemTimeError;
use vstd::prelude::*;

verus! {

/// A window is reported once strictly more than this many milliseconds have
/// passed since it started.
pub const WINDOW_MILLIS: u64 = 1_000;

/// Responses per second for `responses` completions in `elapsed`
/// milliseconds, rounded down.
pub open spec fn rate_of(responses: int, elapsed: int) -> int {
    responses * 1000 / elapsed
}

/// What is known of a window when it closes.
#[derive(Clone, Copy, Debug, PartialEq, Eq, Structural)]
pub struct Report {
    /// Completions counted in the window, the closing one included.
    pub responses: u64,
    /// Milliseconds from the start of the window to its close.
    pub elapsed_millis: u64,
    /// Responses per second over the window, rounded down.
    pub rate: u64,
}

/// The line that announces a rate: the number in decimal, then the words.
pub open spec fn report_text(rate: u64) -> Seq<char> {
    decimal(rate as nat) + " responses per second"@
}

impl Report {
    /// The line that announces this report's rate to the user.
    pub fn line(&self) -> (line: String)
        ensures
            line@ == report_text(self.rate),
    {
        let mut line = decimal_string(self.rate);
        line.append(" responses per second");
        line
    }
}

/// The tracker as contracts see it.
pub struct ThroughputView {
    /// Completions counted since the window started.
    pub responses: u64,
    /// When the window started.
    pub window_start: SystemTime,
}

/// One completion, observed `elapsed` milliseconds into the window at time
/// `now`: the state afterwards and the report, if the window closed.
pub open spec fn record_step(s: ThroughputView, elapsed: u64, now: SystemTime) -> (
    ThroughputView,
    Option<Report>,
) {
    let counted = (s.responses + 1) as u64;
    if elapsed > WINDOW_MILLIS {
        (
            ThroughputView { responses: 0, window_start: now },
            Some(
                Report {
                    responses: counted,
                    elapsed_millis: elapsed,
                    rate: rate_of(counted as int, elapsed as int) as u64,
                },
            ),
        )
    } else {
        (ThroughputView { responses: counted, window_start: s.window_start }, None)
    }
}

/// Over a window longer than a second the rate is at most the count.
pub proof fn lemma_rate_bounded(responses: int, elapsed: int)
    requires
        0 <= responses,
        elapsed > WINDOW_MILLIS,
    ensures
        0 <= rate_of(responses, elapsed) <= responses,
{
    assert(0 <= responses * 1000 / elapsed <= responses) by (nonlinear_arith)
        requires
            0 <= responses,
            elapsed > 1000,
    ;
}

/// The clock as one completion saw it.
pub struct Reading {
    /// Milliseconds since the window started.
    pub elapsed: u64,
    /// The time of the reading.
    pub now: SystemTime,
}

/// The tracker after a series of completions, one per reading, in order.
pub open spec fn record_all(s: ThroughputView, readings: Seq<Reading>) -> ThroughputView
    decreases readings.len(),
{
    if readings.len() == 0 {
        s
    } else {
        let before = record_all(s, readings.drop_last());
        record_step(before, readings.last().elapsed, readings.last().now).0
    }
}

/// The completions that the reports of such a series account for, added up.
pub open spec fn reported_all(s: ThroughputView, readings: Seq<Reading>) -> int
    decreases readings.len(),
{
    if readings.len() == 0 {
        0
    } else {
        let before = record_all(s, readings.drop_last());
        let report = record_step(before, readings.last().elapsed, readings.last().now).1;
        reported_all(s, readings.drop_last()) + match report {
            Some(r) => r.responses as int,
            None => 0,
        }
    }
}

/// No completion is lost and none is counted twice: after any series of
/// completions, whatever the clock read at each, the counts in the reports
/// and the count still in the open window add up to the count at the start
/// plus one per completion. The order in which concurrent loops got their
/// completions in makes no difference, since this holds of every order.
pub proof fn lemma_no_completion_lost(s: ThroughputView, readings: Seq<Reading>)
    requires
        s.responses + readings.len() <= u64::MAX,
    ensures
        0 <= reported_all(s, readings),
        reported_all(s, readings) + record_all(s, readings).responses == s.responses
            + readings.len(),
    decreases readings.len(),
{
    if readings.len() > 0 {
        lemma_no_completion_lost(s, readings.drop_last());
    }
}

/// A window closes in one step. The completion that finds the window older
/// than a second is the last one of that window: the report carries the
/// count with it included, the counter is back at zero and the next window
/// starts at the time of that reading. The completion after it is the first
/// of the new window, whatever the clock reads then.
pub proof fn lemma_reset_starts_afresh(s: ThroughputView, closing: Reading, next: Reading)
    requires
        s.responses < u64::MAX,
        closing.elapsed > WINDOW_MILLIS,
    ensures
        ({
            let closed = record_step(s, closing.elapsed, closing.now);
            let after = record_step(closed.0, next.elapsed, next.now);
            &&& closed.0 == (ThroughputView { responses: 0, window_start: closing.now })
            &&& closed.1 matches Some(report)
            &&& report.responses == s.responses + 1
            &&& report.elapsed_millis == closing.elapsed
            &&& report.rate == (s.responses + 1) * 1000 / (closing.elapsed as int)
            &&& match after.1 {
                Some(second) => second.responses == 1 && after.0.responses == 0,
                None => after.0.responses == 1 && after.0.window_start == closing.now,
            }
        }),
{
    lemma_rate_bounded(s.responses + 1, closing.elapsed as int);
}

/// Counter of completed responses with the start of the current window.
pub struct ThroughputState {
    responses: u64,
    window_start: SystemTime,
}

impl View for ThroughputState {
    type V = ThroughputView;

    closed spec fn view(&self) -> ThroughputView {
        ThroughputView { responses: self.responses, window_start: self.window_start }
    }
}

impl ThroughputState {
    /// An empty window that started at `now`.
    pub fn new(now: SystemTime) -> (state: Self)
        ensures
            state@ == (ThroughputView { responses: 0, window_start: now }),
    {
        ThroughputState { responses: 0, window_start: now }
    }

    /// An empty window that starts at the current clock reading.
    pub fn start() -> (state: Self)
        ensures
            state@.responses == 0,
    {
        ThroughputState::new(SystemTime::now())
    }

    /// Completions counted since the window started.
    pub fn responses(&self) -> (n: u64)
        ensures
            n == self@.responses,
    {
        self.responses
    }

    /// When the current window started.
    pub fn window_start(&self) -> (start: SystemTime)
        ensures
            start == self@.window_start,
    {
        self.window_start
    }

    /// Counts one completion observed `elapsed` milliseconds into the window.
    /// Past the window length the window closes: its count and rate come back
    /// as a report, the counter returns to zero and the next window starts at
    /// `now`. Otherwise `now` is not used.
    pub fn record(&mut self, elapsed: u64, now: SystemTime) -> (report: Option<Report>)
        requires
            old(self)@.responses < u64::MAX,
        ensures
            (final(self)@, report) == record_step(old(self)@, elapsed, now),
    {
        self.responses = self.responses + 1;
        if elapsed > WINDOW_MILLIS {
            let counted: u64 = self.responses;
            proof {
                lemma_rate_bounded(counted as int, elapsed as int);
            }
            let rate: u128 = (counted as u128 * 1000) / (elapsed as u128);
            self.responses = 0;
            self.window_start = now;
            Some(Report { responses: counted, elapsed_millis: elapsed, rate: rate as u64 })
        } else {
            None
        }
    }

    /// Counts one completion against the system clock: reads how long the
    /// window has been open, and where that closes the window, reads the
    /// clock again for the start of the next one. A clock that went backwards
    /// counts as no time elapsed.
    pub fn record_completion(&mut self) -> (report: Option<Report>)
        requires
            old(self)@.responses < u64::MAX,
        ensures
            exists|reading: Result<Duration, SystemTimeError>, now: SystemTime|
                (final(self)@, report) == #[trigger] record_step(
                    old(self)@,
                    reading_millis(reading),
                    now,
                ),
    {
        let reading = self.window_start.elapsed();
        let elapsed: u64 = millis_of_reading(reading);
        let now: SystemTime = if elapsed > WINDOW_MILLIS {
            SystemTime::now()
        } else {
            self.window_start
        };
        self.record(elapsed, now)
    }
}

} // verus!
