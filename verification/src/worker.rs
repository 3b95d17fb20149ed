//! The attempt loop of one target, as a state machine. The caller performs
//! what a step asks for (a request, a wait) and reports back with the next
//! event; the machine decides what each outcome means and what comes next.

use crate::config::ConfigError;
use crate::config::ConfigErrorView;
use crate::transport::counts;
use crate::transport::is_incomplete;
use crate::transport::Outcome;
use crate::transport::OutcomeView;
use crate::transport::TransportError;
use crate::url::request_url;
use crate::url::uri_parses;
use vstd::prelude::*;

verus! {

/// How long a loop waits after a hard failure before its next attempt, in
/// milliseconds. The wait is the same after every failure.
pub const BACKOFF_MILLIS: u64 = 100;

/// Where a loop stands between two events.
#[derive(Clone, Copy, Debug, PartialEq, Eq, Structural)]
pub enum Phase {
    /// Created, nothing asked for yet.
    Idle,
    /// A request is out and its outcome is awaited.
    InFlight,
    /// A hard failure is being waited out.
    BackingOff,
    /// Every attempt has been used.
    Done,
    /// The request URL could not be built.
    Failed,
}

/// What happened since the loop was last heard from.
#[derive(Clone, Debug, PartialEq, Eq)]
pub enum Event {
    /// The loop is set going.
    Start,
    /// The request that was out has ended.
    Completed(Outcome),
    /// The wait that was asked for is over.
    BackoffElapsed,
}

/// An event as contracts see it.
pub enum EventView {
    Start,
    Completed(OutcomeView),
    BackoffElapsed,
}

impl View for Event {
    type V = EventView;

    open spec fn view(&self) -> EventView {
        match self {
            Event::Start => EventView::Start,
            Event::Completed(outcome) => EventView::Completed(outcome@),
            Event::BackoffElapsed => EventView::BackoffElapsed,
        }
    }
}

/// What the caller is to do next for a loop.
#[derive(Clone, Debug, PartialEq, Eq)]
pub enum Action {
    /// Issue a GET request to this URL and report its outcome.
    Request(String),
    /// Log this failure, wait this many milliseconds, then report back.
    Backoff(u64, TransportError),
    /// Nothing: the loop has used all its attempts.
    Finished,
    /// Nothing: the loop cannot go on, and neither can the run.
    Abort(ConfigError),
}

/// An action as contracts see it.
pub enum ActionView {
    Request(Seq<char>),
    Backoff(u64, Seq<char>),
    Finished,
    Abort(ConfigErrorView),
}

impl View for Action {
    type V = ActionView;

    open spec fn view(&self) -> ActionView {
        match self {
            Action::Request(url) => ActionView::Request(url@),
            Action::Backoff(delay, error) => ActionView::Backoff(*delay, error@),
            Action::Finished => ActionView::Finished,
            Action::Abort(error) => ActionView::Abort(error@),
        }
    }
}

/// A loop as contracts see it.
pub struct WorkerView {
    /// The target, appended to the base URL for every request.
    pub target: Seq<char>,
    /// Attempts used so far.
    pub attempts: u32,
    /// Attempts granted.
    pub count: u32,
    /// Where the loop stands.
    pub phase: Phase,
}

impl WorkerView {
    /// The counter never passes the count, and the phase agrees with it: a
    /// loop is done exactly when all attempts are used, and has one left
    /// while a request or a wait is out.
    pub open spec fn well_formed(self) -> bool {
        &&& self.attempts <= self.count
        &&& self.phase == Phase::Idle ==> self.attempts == 0
        &&& self.phase == Phase::Done ==> self.attempts == self.count
        &&& self.phase == Phase::InFlight ==> self.attempts < self.count
        &&& self.phase == Phase::BackingOff ==> self.attempts < self.count
        &&& self.phase == Phase::Failed ==> self.attempts < self.count
    }

    /// Whether `event` is the one the loop is waiting for.
    pub open spec fn awaits(self, event: EventView) -> bool {
        match event {
            EventView::Start => self.phase == Phase::Idle,
            EventView::Completed(_) => self.phase == Phase::InFlight,
            EventView::BackoffElapsed => self.phase == Phase::BackingOff,
        }
    }
}

/// What one step of a loop comes to.
pub struct WorkerStepView {
    /// The loop after the step.
    pub worker: WorkerView,
    /// Whether the step counted a completed response.
    pub counted: bool,
    /// What the caller is to do next.
    pub action: ActionView,
}

/// A fresh loop for `target` with `count` attempts.
pub open spec fn fresh(target: Seq<char>, count: u32) -> WorkerView {
    WorkerView { target, attempts: 0, count, phase: Phase::Idle }
}

/// A loop that has used `attempts` attempts turns to its next one: it is
/// done if none is left, asks for a request if the URL is well formed, and
/// fails if it is not.
pub open spec fn begin(
    w: WorkerView,
    attempts: u32,
    base_url: Seq<char>,
    counted: bool,
) -> WorkerStepView {
    if attempts >= w.count {
        WorkerStepView {
            worker: WorkerView { attempts, phase: Phase::Done, ..w },
            counted,
            action: ActionView::Finished,
        }
    } else if uri_parses(base_url + w.target) {
        WorkerStepView {
            worker: WorkerView { attempts, phase: Phase::InFlight, ..w },
            counted,
            action: ActionView::Request(base_url + w.target),
        }
    } else {
        WorkerStepView {
            worker: WorkerView { attempts, phase: Phase::Failed, ..w },
            counted,
            action: ActionView::Abort(ConfigErrorView::InvalidUrl(base_url + w.target)),
        }
    }
}

/// One step of a loop on the event it was waiting for.
///
/// A response, or the tolerated failure in its place, is counted, uses up
/// the attempt and leads straight on to the next one. Any other failure is
/// not counted and asks for the wait; the attempt is used up once the wait
/// is over.
pub open spec fn worker_step(w: WorkerView, base_url: Seq<char>, event: EventView) -> WorkerStepView {
    match event {
        EventView::Start => begin(w, w.attempts, base_url, false),
        EventView::Completed(outcome) => if counts(outcome) {
            begin(w, (w.attempts + 1) as u32, base_url, true)
        } else {
            WorkerStepView {
                worker: WorkerView { phase: Phase::BackingOff, ..w },
                counted: false,
                action: ActionView::Backoff(BACKOFF_MILLIS, outcome->Failure_0),
            }
        },
        EventView::BackoffElapsed => begin(w, (w.attempts + 1) as u32, base_url, false),
    }
}

/// The loop once it has been set going.
pub open spec fn started(target: Seq<char>, count: u32, base_url: Seq<char>) -> WorkerView {
    worker_step(fresh(target, count), base_url, EventView::Start).worker
}

/// The loop after the attempt that is out has run its course with
/// `outcome`: counted at once, or waited out first.
pub open spec fn after_attempt(w: WorkerView, base_url: Seq<char>, outcome: OutcomeView) -> WorkerView {
    let resolved = worker_step(w, base_url, EventView::Completed(outcome)).worker;
    if counts(outcome) {
        resolved
    } else {
        worker_step(resolved, base_url, EventView::BackoffElapsed).worker
    }
}

/// The loop after a series of attempts with the given outcomes, in order.
pub open spec fn after_attempts(
    w: WorkerView,
    base_url: Seq<char>,
    outcomes: Seq<OutcomeView>,
) -> WorkerView
    decreases outcomes.len(),
{
    if outcomes.len() == 0 {
        w
    } else {
        after_attempt(after_attempts(w, base_url, outcomes.drop_last()), base_url, outcomes.last())
    }
}

/// A step on the awaited event keeps a loop well formed, leaves its target
/// and count alone, and uses up at most one attempt.
pub proof fn lemma_step_well_formed(w: WorkerView, base_url: Seq<char>, event: EventView)
    requires
        w.well_formed(),
        w.awaits(event),
    ensures
        worker_step(w, base_url, event).worker.well_formed(),
        worker_step(w, base_url, event).worker.target == w.target,
        worker_step(w, base_url, event).worker.count == w.count,
        w.attempts <= worker_step(w, base_url, event).worker.attempts <= w.attempts + 1,
{
}

/// Attempts are conserved: a loop uses one attempt per outcome, whatever the
/// outcomes are, successes, tolerated failures or hard ones, and is done
/// exactly when the count is reached, not before. This holds of every loop
/// that gets to make a request: one with a well-formed URL, or with no
/// attempt to make.
pub proof fn lemma_attempts_conserved(
    target: Seq<char>,
    count: u32,
    base_url: Seq<char>,
    outcomes: Seq<OutcomeView>,
)
    requires
        count > 0 ==> uri_parses(base_url + target),
        outcomes.len() <= count,
    ensures
        ({
            let w = after_attempts(started(target, count, base_url), base_url, outcomes);
            &&& w.attempts == outcomes.len()
            &&& w.count == count
            &&& w.target == target
            &&& w.phase == if outcomes.len() == count {
                Phase::Done
            } else {
                Phase::InFlight
            }
        }),
    decreases outcomes.len(),
{
    if outcomes.len() > 0 {
        lemma_attempts_conserved(target, count, base_url, outcomes.drop_last());
    }
}

/// A loop whose URL is malformed fails at its first attempt, with the error
/// that names the URL, and has used no attempt. With no attempt granted the
/// URL is never built and the loop is done at once.
pub proof fn lemma_malformed_url_fails(target: Seq<char>, count: u32, base_url: Seq<char>)
    requires
        !uri_parses(base_url + target),
    ensures
        ({
            let first = worker_step(fresh(target, count), base_url, EventView::Start);
            if count == 0 {
                first.action == ActionView::Finished && first.worker.phase == Phase::Done
            } else {
                &&& first.action == ActionView::Abort(ConfigErrorView::InvalidUrl(base_url + target))
                &&& first.worker.phase == Phase::Failed
                &&& first.worker.attempts == 0
                &&& !first.counted
            }
        }),
{
}

/// What a step hands back to the caller.
#[derive(Clone, Debug, PartialEq, Eq)]
pub struct WorkerStep {
    /// Whether the step counted a completed response.
    pub counted: bool,
    /// What the caller is to do next.
    pub action: Action,
}

/// The attempt loop of one target.
#[derive(Clone, Debug, PartialEq, Eq)]
pub struct WorkerLoop {
    target: String,
    attempts: u32,
    count: u32,
    phase: Phase,
}

impl View for WorkerLoop {
    type V = WorkerView;

    closed spec fn view(&self) -> WorkerView {
        WorkerView {
            target: self.target@,
            attempts: self.attempts,
            count: self.count,
            phase: self.phase,
        }
    }
}

impl WorkerLoop {
    /// A loop for `target` with `count` attempts, none of them used.
    pub fn new(target: String, count: u32) -> (worker: Self)
        ensures
            worker@ == fresh(target@, count),
            worker@.well_formed(),
    {
        WorkerLoop { target, attempts: 0, count, phase: Phase::Idle }
    }

    /// The loop's target.
    pub fn target(&self) -> (target: &str)
        ensures
            target@ == self@.target,
    {
        self.target.as_str()
    }

    /// Attempts used so far.
    pub fn attempts(&self) -> (n: u32)
        ensures
            n == self@.attempts,
    {
        self.attempts
    }

    /// Attempts granted.
    pub fn count(&self) -> (n: u32)
        ensures
            n == self@.count,
    {
        self.count
    }

    /// Where the loop stands.
    pub fn phase(&self) -> (phase: Phase)
        ensures
            phase == self@.phase,
    {
        self.phase
    }

    /// Whether the loop has used all its attempts.
    pub fn is_done(&self) -> (done: bool)
        ensures
            done == (self@.phase == Phase::Done),
    {
        self.phase == Phase::Done
    }

    /// Whether `event` is the one the loop is waiting for.
    pub fn awaits(&self, event: &Event) -> (expected: bool)
        ensures
            expected == self@.awaits(event@),
    {
        match event {
            Event::Start => self.phase == Phase::Idle,
            Event::Completed(_) => self.phase == Phase::InFlight,
            Event::BackoffElapsed => self.phase == Phase::BackingOff,
        }
    }

    /// Turns to the next attempt with `attempts` of them used.
    fn begin(&mut self, attempts: u32, base_url: &str, counted: bool) -> (step: WorkerStep)
        requires
            attempts <= old(self)@.count,
        ensures
            final(self)@ == begin(old(self)@, attempts, base_url@, counted).worker,
            step.counted == counted,
            step.action@ == begin(old(self)@, attempts, base_url@, counted).action,
            final(self)@.well_formed(),
    {
        self.attempts = attempts;
        if attempts >= self.count {
            self.phase = Phase::Done;
            WorkerStep { counted, action: Action::Finished }
        } else {
            match request_url(base_url, self.target.as_str()) {
                Ok(url) => {
                    self.phase = Phase::InFlight;
                    WorkerStep { counted, action: Action::Request(url) }
                },
                Err(error) => {
                    self.phase = Phase::Failed;
                    WorkerStep { counted, action: Action::Abort(error) }
                },
            }
        }
    }

    /// Takes the loop one step on, given the event it was waiting for, and
    /// says what the caller is to do next.
    pub fn step(&mut self, base_url: &str, event: Event) -> (step: WorkerStep)
        requires
            old(self)@.well_formed(),
            old(self)@.awaits(event@),
        ensures
            final(self)@ == worker_step(old(self)@, base_url@, event@).worker,
            step.counted == worker_step(old(self)@, base_url@, event@).counted,
            step.action@ == worker_step(old(self)@, base_url@, event@).action,
            final(self)@.well_formed(),
    {
        match event {
            Event::Start => {
                let attempts: u32 = self.attempts;
                self.begin(attempts, base_url, false)
            },
            Event::Completed(outcome) => match outcome {
                Outcome::Success => {
                    let attempts: u32 = self.attempts + 1;
                    self.begin(attempts, base_url, true)
                },
                Outcome::Failure(error) => {
                    if is_incomplete(&error) {
                        let attempts: u32 = self.attempts + 1;
                        self.begin(attempts, base_url, true)
                    } else {
                        self.phase = Phase::BackingOff;
                        WorkerStep {
                            counted: false,
                            action: Action::Backoff(BACKOFF_MILLIS, error),
                        }
                    }
                },
            },
            Event::BackoffElapsed => {
                let attempts: u32 = self.attempts + 1;
                self.begin(attempts, base_url, false)
            },
        }
    }
}

} // verus!
