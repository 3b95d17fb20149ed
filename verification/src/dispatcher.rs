//! The dispatcher: one attempt loop per target and the throughput tracker
//! they share, owned in one place. The caller runs the requests and waits
//! concurrently and reports each event here; events are taken one at a time,
//! so every completion is counted in one indivisible step.

use crate::clock::reading_millis;
use crate::config::ConfigError;
use crate::config::ConfigErrorView;
use crate::config::RunConfiguration;
use crate::throughput::record_step;
use crate::throughput::Reading;
use crate::throughput::Report;
use crate::throughput::ThroughputState;
use crate::throughput::ThroughputView;
use crate::transport::counts;
use crate::transport::incomplete_message;
use crate::transport::OutcomeView;
use crate::url::uri_parses;
use crate::worker::fresh;
use crate::worker::worker_step;
use crate::worker::Action;
use crate::worker::ActionView;
use crate::worker::Event;
use crate::worker::EventView;
use crate::worker::Phase;
use crate::worker::WorkerLoop;
use crate::worker::WorkerStep;
use crate::worker::WorkerView;
use crate::worker::BACKOFF_MILLIS;
use std::time::Duration;
use std::time::SystemTime;
use std::time::SystemTimeError;
use vstd::prelude::*;

verus! {

/// A run as contracts see it.
pub struct DispatcherView {
    /// The URL that every target is appended to.
    pub base_url: Seq<char>,
    /// The loops, in the order of their targets.
    pub workers: Seq<WorkerView>,
    /// The tracker that all loops count into.
    pub tracker: ThroughputView,
    /// The first fatal error that a loop ran into, if any did.
    pub failure: Option<ConfigErrorView>,
}

impl DispatcherView {
    /// Every loop is well formed.
    pub open spec fn well_formed(self) -> bool {
        forall|i: int| 0 <= i < self.workers.len() ==> (#[trigger] self.workers[i]).well_formed()
    }

    /// Whether the run is over: a loop has failed, or all of them are done.
    pub open spec fn finished(self) -> bool {
        self.failure is Some || forall|i: int|
            0 <= i < self.workers.len() ==> (#[trigger] self.workers[i]).phase == Phase::Done
    }

    /// How the run ended, once it is over.
    pub open spec fn outcome(self) -> Result<(), ConfigErrorView> {
        match self.failure {
            None => Ok(()),
            Some(error) => Err(error),
        }
    }

    /// Whether loop `worker` exists, is waiting for `event`, and the tracker
    /// has room for the completion, if the event brings one.
    pub open spec fn accepts(self, worker: int, event: EventView) -> bool {
        &&& 0 <= worker < self.workers.len()
        &&& self.workers[worker].awaits(event)
        &&& brings_completion(event) ==> self.tracker.responses < u64::MAX
    }
}

/// Whether an event brings a completed response: a success or the
/// tolerated failure.
pub open spec fn brings_completion(event: EventView) -> bool {
    match event {
        EventView::Completed(outcome) => counts(outcome),
        _ => false,
    }
}

/// What one step of the run hands back, as contracts see it.
pub struct StepView {
    /// The report of the window that the step closed, if it closed one.
    pub report: Option<Report>,
    /// What the caller is to do next for the loop that the event was for.
    pub action: ActionView,
}

/// A run at its start: one fresh loop per target, in order, an empty window
/// that starts at `now`, and no failure.
pub open spec fn initial(
    base_url: Seq<char>,
    count: u32,
    targets: Seq<Seq<char>>,
    now: SystemTime,
) -> DispatcherView {
    DispatcherView {
        base_url,
        workers: Seq::new(targets.len(), |i: int| fresh(targets[i], count)),
        tracker: ThroughputView { responses: 0, window_start: now },
        failure: None,
    }
}

/// The fatal error that stands after a step: the one that stood before, or
/// else the one that the step's action brings.
pub open spec fn kept_failure(
    failure: Option<ConfigErrorView>,
    action: ActionView,
) -> Option<ConfigErrorView> {
    match action {
        ActionView::Abort(error) => if failure is None {
            Some(error)
        } else {
            failure
        },
        _ => failure,
    }
}

/// One step of the run: loop `worker` takes `event`; if that counts a
/// completed response, the tracker records it, observed `elapsed`
/// milliseconds into its window at time `now`; a fatal error is kept if it
/// is the first. No other loop is touched.
pub open spec fn dispatch_step(
    d: DispatcherView,
    worker: int,
    event: EventView,
    elapsed: u64,
    now: SystemTime,
) -> (DispatcherView, StepView) {
    let ws = worker_step(d.workers[worker], d.base_url, event);
    let recorded = if ws.counted {
        record_step(d.tracker, elapsed, now)
    } else {
        (d.tracker, None)
    };
    (
        DispatcherView {
            base_url: d.base_url,
            workers: d.workers.update(worker, ws.worker),
            tracker: recorded.0,
            failure: kept_failure(d.failure, ws.action),
        },
        StepView { report: recorded.1, action: ws.action },
    )
}

/// The view of a run's end.
pub open spec fn outcome_view(r: Result<(), ConfigError>) -> Result<(), ConfigErrorView> {
    match r {
        Ok(_) => Ok(()),
        Err(error) => Err(error@),
    }
}

/// The texts of a list of targets.
pub open spec fn target_views(targets: Seq<String>) -> Seq<Seq<char>> {
    Seq::new(targets.len(), |i: int| targets[i]@)
}

/// One event as the run met it: the loop it was for, and what the clock read.
pub struct Occurrence {
    /// The number of the loop that the event was for.
    pub worker: int,
    /// The event.
    pub event: EventView,
    /// What the clock read when the event was taken.
    pub at: Reading,
}

/// The run after a series of events, in the order in which they were taken.
pub open spec fn dispatch_all(d: DispatcherView, trace: Seq<Occurrence>) -> DispatcherView
    decreases trace.len(),
{
    if trace.len() == 0 {
        d
    } else {
        let o = trace.last();
        dispatch_step(
            dispatch_all(d, trace.drop_last()),
            o.worker,
            o.event,
            o.at.elapsed,
            o.at.now,
        ).0
    }
}

/// Whether each event of the series is accepted by the run as the events
/// before it left it.
pub open spec fn accepted_all(d: DispatcherView, trace: Seq<Occurrence>) -> bool
    decreases trace.len(),
{
    trace.len() > 0 ==> {
        &&& accepted_all(d, trace.drop_last())
        &&& dispatch_all(d, trace.drop_last()).accepts(trace.last().worker, trace.last().event)
    }
}

/// The completions that the reports of the series account for, added up.
pub open spec fn reported_all(d: DispatcherView, trace: Seq<Occurrence>) -> int
    decreases trace.len(),
{
    if trace.len() == 0 {
        0
    } else {
        let o = trace.last();
        let before = dispatch_all(d, trace.drop_last());
        reported_all(d, trace.drop_last()) + match dispatch_step(
            before,
            o.worker,
            o.event,
            o.at.elapsed,
            o.at.now,
        ).1.report {
            Some(r) => r.responses as int,
            None => 0,
        }
    }
}

/// How many events of the series bring a completed response: a success or
/// the tolerated failure.
pub open spec fn completions(trace: Seq<Occurrence>) -> int
    decreases trace.len(),
{
    if trace.len() == 0 {
        0
    } else {
        completions(trace.drop_last()) + if brings_completion(trace.last().event) {
            1int
        } else {
            0int
        }
    }
}

/// A step on an accepted event keeps the run well formed and its base URL.
pub proof fn lemma_step_well_formed(
    d: DispatcherView,
    worker: int,
    event: EventView,
    elapsed: u64,
    now: SystemTime,
)
    requires
        d.well_formed(),
        d.accepts(worker, event),
    ensures
        dispatch_step(d, worker, event, elapsed, now).0.well_formed(),
        dispatch_step(d, worker, event, elapsed, now).0.base_url == d.base_url,
        dispatch_step(d, worker, event, elapsed, now).0.workers.len() == d.workers.len(),
{
    crate::worker::lemma_step_well_formed(d.workers[worker], d.base_url, event);
}

/// No completion is lost and none is counted twice, however the events of
/// the loops interleave: after any accepted series of events, the counts in
/// the reports and the count still in the open window add up to the count
/// at the start plus one per success or tolerated failure. With `m` loops
/// that each complete `k` such outcomes, that is `m * k`.
pub proof fn lemma_no_completion_lost(d: DispatcherView, trace: Seq<Occurrence>)
    requires
        d.well_formed(),
        accepted_all(d, trace),
    ensures
        dispatch_all(d, trace).well_formed(),
        0 <= completions(trace) <= trace.len(),
        0 <= reported_all(d, trace),
        reported_all(d, trace) + dispatch_all(d, trace).tracker.responses == d.tracker.responses
            + completions(trace),
    decreases trace.len(),
{
    if trace.len() > 0 {
        let o = trace.last();
        lemma_no_completion_lost(d, trace.drop_last());
        lemma_step_well_formed(
            dispatch_all(d, trace.drop_last()),
            o.worker,
            o.event,
            o.at.elapsed,
            o.at.now,
        );
    }
}

/// A tolerated failure is a success in all but name: the step it leads to
/// is the step that a response leads to. The completion is recorded, and
/// what comes next is never the wait, which would also have the failure
/// logged.
pub proof fn lemma_tolerated_like_success(
    d: DispatcherView,
    worker: int,
    elapsed: u64,
    now: SystemTime,
)
    requires
        0 <= worker < d.workers.len(),
    ensures
        ({
            let tolerated = EventView::Completed(OutcomeView::Failure(incomplete_message()));
            let success = EventView::Completed(OutcomeView::Success);
            let step = dispatch_step(d, worker, tolerated, elapsed, now);
            &&& step == dispatch_step(d, worker, success, elapsed, now)
            &&& step.0.tracker == record_step(d.tracker, elapsed, now).0
            &&& step.1.report == record_step(d.tracker, elapsed, now).1
            &&& !(step.1.action is Backoff)
        }),
{
}

/// A hard failure in one loop stays in that loop. The wait is asked of the
/// failing loop alone, nothing is counted, and every other loop is left as
/// it was: whatever event another loop takes next, it takes it exactly as if
/// the failure had not happened.
pub proof fn lemma_backoff_isolated(
    d: DispatcherView,
    failing: int,
    message: Seq<char>,
    failed_at: Reading,
    other: int,
    event: EventView,
    taken_at: Reading,
)
    requires
        0 <= failing < d.workers.len(),
        0 <= other < d.workers.len(),
        failing != other,
        message != incomplete_message(),
    ensures
        ({
            let failure = EventView::Completed(OutcomeView::Failure(message));
            let failed = dispatch_step(d, failing, failure, failed_at.elapsed, failed_at.now);
            let after = dispatch_step(failed.0, other, event, taken_at.elapsed, taken_at.now);
            let without = dispatch_step(d, other, event, taken_at.elapsed, taken_at.now);
            &&& failed.1.action == ActionView::Backoff(BACKOFF_MILLIS, message)
            &&& failed.1.report is None
            &&& failed.0.workers[failing].phase == Phase::BackingOff
            &&& failed.0.workers[failing].attempts == d.workers[failing].attempts
            &&& failed.0.tracker == d.tracker
            &&& failed.0.failure == d.failure
            &&& forall|j: int|
                0 <= j < d.workers.len() && j != failing ==> #[trigger] failed.0.workers[j]
                    == d.workers[j]
            &&& after.1 == without.1
            &&& after.0.workers[other] == without.0.workers[other]
            &&& after.0.tracker == without.0.tracker
            &&& after.0.failure == without.0.failure
        }),
{
}

/// A run that is over without a failure has used every attempt of every
/// loop, no more and no fewer.
pub proof fn lemma_finished_means_exhausted(d: DispatcherView)
    requires
        d.well_formed(),
        d.finished(),
        d.failure is None,
    ensures
        forall|i: int|
            0 <= i < d.workers.len() ==> (#[trigger] d.workers[i]).attempts == d.workers[i].count,
{
}

/// A malformed URL is fatal to the run and to nothing else: the step that
/// finds it hands back the error that names the URL, the run is finished
/// with that error unless an earlier one stands, and the other loops and
/// the tracker keep what they had.
pub proof fn lemma_malformed_url_is_fatal(
    d: DispatcherView,
    worker: int,
    elapsed: u64,
    now: SystemTime,
)
    requires
        0 <= worker < d.workers.len(),
        d.workers[worker].phase == Phase::Idle,
        d.workers[worker].attempts < d.workers[worker].count,
        !uri_parses(d.base_url + d.workers[worker].target),
    ensures
        ({
            let url = d.base_url + d.workers[worker].target;
            let step = dispatch_step(d, worker, EventView::Start, elapsed, now);
            &&& step.1.action == ActionView::Abort(ConfigErrorView::InvalidUrl(url))
            &&& step.1.report is None
            &&& step.0.finished()
            &&& d.failure is None ==> step.0.outcome() == Err::<(), ConfigErrorView>(
                ConfigErrorView::InvalidUrl(url),
            )
            &&& step.0.tracker == d.tracker
            &&& forall|j: int|
                0 <= j < d.workers.len() && j != worker ==> #[trigger] step.0.workers[j]
                    == d.workers[j]
        }),
{
}

/// What one step of the run hands back to the caller.
#[derive(Clone, Debug, PartialEq, Eq)]
pub struct Step {
    /// The report of the window that the step closed, if it closed one.
    pub report: Option<Report>,
    /// What the caller is to do next for the loop that the event was for.
    pub action: Action,
}

impl View for Step {
    type V = StepView;

    open spec fn view(&self) -> StepView {
        StepView { report: self.report, action: self.action@ }
    }
}

/// One attempt loop per target and the tracker they share.
pub struct Dispatcher {
    base_url: String,
    workers: Vec<WorkerLoop>,
    tracker: ThroughputState,
    failure: Option<ConfigError>,
}

impl View for Dispatcher {
    type V = DispatcherView;

    closed spec fn view(&self) -> DispatcherView {
        DispatcherView {
            base_url: self.base_url@,
            workers: Seq::new(self.workers@.len(), |i: int| self.workers@[i]@),
            tracker: self.tracker@,
            failure: match self.failure {
                None => None,
                Some(error) => Some(error@),
            },
        }
    }
}

impl Dispatcher {
    /// Sets up a run: one loop per target, in the order given, each with the
    /// configured number of attempts, and a window that starts at `now`.
    pub fn new(config: &RunConfiguration, targets: &Vec<String>, now: SystemTime) -> (run: Self)
        ensures
            run@ == initial(config@.base_url, config@.count, target_views(targets@), now),
            run@.well_formed(),
    {
        let count: u32 = config.count();
        let mut workers: Vec<WorkerLoop> = Vec::new();
        let mut i: usize = 0;
        while i < targets.len()
            invariant
                i <= targets.len(),
                workers@.len() == i,
                forall|k: int| 0 <= k < i ==> (#[trigger] workers@[k])@ == fresh(targets@[k]@, count),
            decreases targets.len() - i,
        {
            workers.push(WorkerLoop::new(targets[i].clone(), count));
            i = i + 1;
        }
        let run = Dispatcher {
            base_url: String::from_str(config.base_url()),
            workers,
            tracker: ThroughputState::new(now),
            failure: None,
        };
        assert(run@.workers =~= initial(
            config@.base_url,
            config@.count,
            target_views(targets@),
            now,
        ).workers);
        run
    }

    /// Sets up a run whose first window starts at the current clock reading.
    pub fn start(config: &RunConfiguration, targets: &Vec<String>) -> (run: Self)
        ensures
            exists|now: SystemTime|
                run@ == #[trigger] initial(
                    config@.base_url,
                    config@.count,
                    target_views(targets@),
                    now,
                ),
            run@.well_formed(),
    {
        Dispatcher::new(config, targets, SystemTime::now())
    }

    /// How many loops the run has.
    pub fn worker_count(&self) -> (n: usize)
        ensures
            n == self@.workers.len(),
    {
        self.workers.len()
    }

    /// Loop number `worker`.
    pub fn worker(&self, worker: usize) -> (w: &WorkerLoop)
        requires
            worker < self@.workers.len(),
        ensures
            w@ == self@.workers[worker as int],
    {
        &self.workers[worker]
    }

    /// The tracker that all loops count into.
    pub fn tracker(&self) -> (tracker: &ThroughputState)
        ensures
            tracker@ == self@.tracker,
    {
        &self.tracker
    }

    /// Whether loop `worker` exists, is waiting for `event`, and the tracker
    /// has room for the completion, if the event brings one.
    pub fn accepts(&self, worker: usize, event: &Event) -> (accepted: bool)
        ensures
            accepted == self@.accepts(worker as int, event@),
    {
        if worker >= self.workers.len() {
            return false;
        }
        if !self.workers[worker].awaits(event) {
            return false;
        }
        match event {
            Event::Completed(outcome) => !outcome.is_completion() || self.tracker.responses()
                < u64::MAX,
            _ => true,
        }
    }

    /// Whether the run is over: a loop has failed, or all of them are done.
    pub fn is_finished(&self) -> (finished: bool)
        ensures
            finished == self@.finished(),
    {
        if self.failure.is_some() {
            return true;
        }
        let mut i: usize = 0;
        while i < self.workers.len()
            invariant
                i <= self.workers@.len(),
                self.failure is None,
                forall|k: int| 0 <= k < i ==> (#[trigger] self@.workers[k]).phase == Phase::Done,
            decreases self.workers.len() - i,
        {
            if !self.workers[i].is_done() {
                assert(self@.workers[i as int].phase != Phase::Done);
                return false;
            }
            i = i + 1;
        }
        true
    }

    /// How the run ended: the first fatal error, or nothing to report.
    pub fn outcome(&self) -> (r: Result<(), ConfigError>)
        ensures
            outcome_view(r) == self@.outcome(),
    {
        match &self.failure {
            None => Ok(()),
            Some(error) => Err(error.duplicate()),
        }
    }

    /// Lets loop `worker` take `event` and keeps the fatal error if the loop
    /// ran into the first one.
    fn advance(&mut self, worker: usize, event: Event) -> (ws: WorkerStep)
        requires
            old(self)@.well_formed(),
            worker < old(self)@.workers.len(),
            old(self)@.workers[worker as int].awaits(event@),
        ensures
            final(self)@.well_formed(),
            ({
                let d = old(self)@;
                let step = worker_step(d.workers[worker as int], d.base_url, event@);
                &&& final(self)@.base_url == d.base_url
                &&& final(self)@.workers == d.workers.update(worker as int, step.worker)
                &&& final(self)@.tracker == d.tracker
                &&& final(self)@.failure == kept_failure(d.failure, step.action)
                &&& ws.counted == step.counted
                &&& ws.action@ == step.action
            }),
    {
        let ws = self.workers[worker].step(self.base_url.as_str(), event);
        if self.failure.is_none() {
            match &ws.action {
                Action::Abort(error) => {
                    self.failure = Some(error.duplicate());
                },
                _ => {},
            }
        }
        assert(self@.workers =~= old(self)@.workers.update(worker as int, self.workers@[worker as int]@));
        ws
    }

    /// Takes one event for loop `worker`, with the clock reading given: a
    /// completion, if the event brings one, is observed `elapsed`
    /// milliseconds into the tracker's window at time `now`.
    pub fn handle_at(&mut self, worker: usize, event: Event, elapsed: u64, now: SystemTime) -> (step:
        Step)
        requires
            old(self)@.well_formed(),
            old(self)@.accepts(worker as int, event@),
        ensures
            (final(self)@, step@) == dispatch_step(old(self)@, worker as int, event@, elapsed, now),
            final(self)@.well_formed(),
    {
        let ws = self.advance(worker, event);
        let report = if ws.counted {
            self.tracker.record(elapsed, now)
        } else {
            None
        };
        Step { report, action: ws.action }
    }

    /// Takes one event for loop `worker`, reading the system clock where the
    /// event brings a completion: once for the time since the window
    /// started, and once more for the start of the next window where that
    /// closes the window. A clock that went backwards counts as no time elapsed.
    pub fn handle(&mut self, worker: usize, event: Event) -> (step: Step)
        requires
            old(self)@.well_formed(),
            old(self)@.accepts(worker as int, event@),
        ensures
            exists|reading: Result<Duration, SystemTimeError>, now: SystemTime|
                (final(self)@, step@) == #[trigger] dispatch_step(
                    old(self)@,
                    worker as int,
                    event@,
                    reading_millis(reading),
                    now,
                ),
            final(self)@.well_formed(),
    {
        let ws = self.advance(worker, event);
        let report = if ws.counted {
            self.tracker.record_completion()
        } else {
            None
        };
        let step = Step { report, action: ws.action };
        proof {
            let before = old(self)@;
            if ws.counted {
                let (reading, now) = choose|
                    reading: Result<Duration, SystemTimeError>,
                    now: SystemTime,
                |
                    (self.tracker@, report) == #[trigger] record_step(
                        before.tracker,
                        reading_millis(reading),
                        now,
                    );
                assert((self@, step@) == dispatch_step(
                    before,
                    worker as int,
                    event@,
                    reading_millis(reading),
                    now,
                ));
            } else {
                let reading: Result<Duration, SystemTimeError> = arbitrary();
                let now = before.tracker.window_start;
                assert((self@, step@) == dispatch_step(
                    before,
                    worker as int,
                    event@,
                    reading_millis(reading),
                    now,
                ));
            }
        }
        step
    }
}

} // verus!
