use vstd::prelude::*;

verus! {

/// Where a polling run stands.
#[derive(Clone, Copy, Debug, PartialEq, Eq, Structural)]
pub enum Phase {
    /// The probe is to be run (again).
    Polling,
    /// A probe result was accepted; the probe is never run again.
    Succeeded,
    /// The deadline passed before any result was accepted.
    TimedOut,
}

/// The state of one retry-until-accepted run: a fixed polling interval and an overall deadline,
/// both in milliseconds on the caller's clock.
#[derive(Clone, Copy, Debug, PartialEq, Eq, Structural)]
pub struct Poll {
    pub interval_ms: u64,
    pub deadline_ms: u64,
    /// Probe results observed so far (saturating).
    pub attempts: u64,
    pub phase: Phase,
}

/// What one run of the probe gave, judged by the predicate.
pub enum Attempt<T> {
    /// The predicate holds of the value.
    Accepted(T),
    /// The predicate does not hold of the value.
    ConditionFalse(T),
    /// An assertion over the value failed, for the reason given.
    AssertionFailed(T, String),
    /// The probe itself failed, with the error given.
    ProbeError(String),
}

/// The last failed attempt of a run that timed out.
pub enum LastFailure<T> {
    /// The condition never became true; this is the last value seen.
    ConditionFalse(T),
    /// The last attempt's assertion failed with this reason.
    AssertionFailed(T, String),
    /// The last run of the probe failed with this error.
    ProbeError(String),
}

/// A run whose deadline passed: how many results were seen, and the last one.
pub struct TimeoutError<T> {
    pub attempts: u64,
    pub last: LastFailure<T>,
}

/// What the caller is to do next.
pub enum Step<T> {
    /// Done: the accepted value.
    Succeeded(T),
    /// Wait this many milliseconds, then run the probe again.
    RetryAfter(u64),
    /// Give up: the deadline passed.
    TimedOut(TimeoutError<T>),
    /// The run had already ended; nothing is to be done.
    Finished,
}

/// The failure that a rejected attempt records.
pub open spec fn failure_of<T>(a: Attempt<T>) -> Option<LastFailure<T>> {
    match a {
        Attempt::Accepted(_) => None,
        Attempt::ConditionFalse(v) => Some(LastFailure::ConditionFalse(v)),
        Attempt::AssertionFailed(v, why) => Some(LastFailure::AssertionFailed(v, why)),
        Attempt::ProbeError(e) => Some(LastFailure::ProbeError(e)),
    }
}

/// A run that starts at `now_ms`, gives up `timeout_ms` later, and polls every `interval_ms`.
pub open spec fn start_spec(now_ms: u64, timeout_ms: u64, interval_ms: u64) -> Poll {
    Poll {
        interval_ms,
        deadline_ms: now_ms.saturating_add(timeout_ms),
        attempts: 0,
        phase: Phase::Polling,
    }
}

/// The next state of a run and the step to take, after the attempt `a` was observed at `now_ms`.
/// An accepted value ends the run at once; a rejected one ends it once the deadline has come,
/// and otherwise asks for another attempt after the interval, or sooner if the deadline is nearer.
pub open spec fn step_spec<T>(p: Poll, now_ms: u64, a: Attempt<T>) -> (Poll, Step<T>) {
    let attempts = p.attempts.saturating_add(1);
    if p.phase != Phase::Polling {
        (p, Step::Finished)
    } else {
        match a {
            Attempt::Accepted(v) => (Poll { attempts, phase: Phase::Succeeded, ..p }, Step::Succeeded(v)),
            _ => {
                if now_ms >= p.deadline_ms {
                    (
                        Poll { attempts, phase: Phase::TimedOut, ..p },
                        Step::TimedOut(TimeoutError { attempts, last: failure_of(a).unwrap() }),
                    )
                } else {
                    let left = (p.deadline_ms - now_ms) as u64;
                    let wait = if p.interval_ms < left { p.interval_ms } else { left };
                    (Poll { attempts, ..p }, Step::RetryAfter(wait))
                }
            },
        }
    }
}

/// The steps of a run that observes the attempts `events` (each with its time), in order.
pub open spec fn run_spec<T>(p: Poll, events: Seq<(u64, Attempt<T>)>) -> Seq<Step<T>>
    decreases events.len(),
{
    if events.len() == 0 {
        Seq::empty()
    } else {
        let (next, step) = step_spec(p, events[0].0, events[0].1);
        seq![step] + run_spec(next, events.drop_first())
    }
}

impl Poll {
    /// Starts a run at `now_ms`. A deadline past the clock's range is held at its end.
    pub fn start(now_ms: u64, timeout_ms: u64, interval_ms: u64) -> (r: Poll)
        ensures
            r == start_spec(now_ms, timeout_ms, interval_ms),
    {
        Poll {
            interval_ms,
            deadline_ms: now_ms.saturating_add(timeout_ms),
            attempts: 0,
            phase: Phase::Polling,
        }
    }

    /// Whether the probe is to be run (again).
    pub fn should_probe(&self) -> (r: bool)
        ensures
            r == (self.phase == Phase::Polling),
    {
        self.phase == Phase::Polling
    }

    /// Records the attempt `a`, observed at `now_ms`, and says what to do next.
    pub fn observe<T>(&mut self, now_ms: u64, a: Attempt<T>) -> (r: Step<T>)
        ensures
            (*final(self), r) == step_spec(*old(self), now_ms, a),
    {
        if self.phase != Phase::Polling {
            return Step::Finished;
        }
        let attempts = self.attempts.saturating_add(1);
        self.attempts = attempts;
        let last = match a {
            Attempt::Accepted(v) => {
                self.phase = Phase::Succeeded;
                return Step::Succeeded(v);
            },
            Attempt::ConditionFalse(v) => LastFailure::ConditionFalse(v),
            Attempt::AssertionFailed(v, why) => LastFailure::AssertionFailed(v, why),
            Attempt::ProbeError(e) => LastFailure::ProbeError(e),
        };
        if now_ms >= self.deadline_ms {
            self.phase = Phase::TimedOut;
            Step::TimedOut(TimeoutError { attempts, last })
        } else {
            let left = self.deadline_ms - now_ms;
            let wait = if self.interval_ms < left { self.interval_ms } else { left };
            Step::RetryAfter(wait)
        }
    }
}

/// Judges a probe result by a predicate: accepted exactly when the predicate holds of it. With
/// the identity as predicate this is the plain boolean form.
pub fn judge<T, F: Fn(&T) -> bool>(value: T, predicate: F) -> (r: Attempt<T>)
    requires
        predicate.requires((&value,)),
    ensures
        exists|holds: bool|
            predicate.ensures((&value,), holds) && r == (if holds {
                Attempt::Accepted(value)
            } else {
                Attempt::ConditionFalse(value)
            }),
{
    let holds = predicate(&value);
    if holds {
        Attempt::Accepted(value)
    } else {
        Attempt::ConditionFalse(value)
    }
}

/// Once a run has ended, every later observation leaves it as it is and asks for nothing.
pub proof fn lemma_ended_run_stays<T>(p: Poll, events: Seq<(u64, Attempt<T>)>)
    requires
        p.phase != Phase::Polling,
    ensures
        run_spec(p, events).len() == events.len(),
        forall|j: int| 0 <= j < events.len() ==> run_spec(p, events)[j] is Finished,
    decreases events.len(),
{
    if events.len() > 0 {
        lemma_ended_run_stays(p, events.drop_first());
    }
}

/// A run hands back the first probe result that the predicate accepts, provided the deadline
/// has not come at any earlier attempt: every earlier attempt only asks for another, and no
/// later one is asked for.
pub proof fn lemma_first_accepted_is_returned<T>(p: Poll, events: Seq<(u64, Attempt<T>)>, k: int, v: T)
    requires
        p.phase == Phase::Polling,
        0 <= k < events.len(),
        events[k].1 == Attempt::Accepted(v),
        forall|j: int| 0 <= j < k ==> !(events[j].1 is Accepted) && events[j].0 < p.deadline_ms,
    ensures
        run_spec(p, events).len() == events.len(),
        run_spec(p, events)[k] == Step::Succeeded(v),
        forall|j: int| 0 <= j < k ==> run_spec(p, events)[j] is RetryAfter,
        forall|j: int| k < j < events.len() ==> run_spec(p, events)[j] is Finished,
    decreases k,
{
    let (next, step) = step_spec(p, events[0].0, events[0].1);
    let rest = events.drop_first();
    if k == 0 {
        lemma_ended_run_stays(next, rest);
    } else {
        assert(forall|j: int| 0 <= j < k - 1 ==> rest[j] == events[j + 1]);
        lemma_first_accepted_is_returned(next, rest, k - 1, v);
    }
}

/// A run whose attempts are all rejected reports a timeout, never a value: at the first
/// attempt observed at or after the deadline it gives up with that attempt's failure, every
/// earlier attempt only asks for another, and no later one is asked for.
pub proof fn lemma_deadline_reports_timeout<T>(p: Poll, events: Seq<(u64, Attempt<T>)>, k: int)
    requires
        p.phase == Phase::Polling,
        0 <= k < events.len(),
        !(events[k].1 is Accepted),
        events[k].0 >= p.deadline_ms,
        forall|j: int| 0 <= j < k ==> !(events[j].1 is Accepted) && events[j].0 < p.deadline_ms,
    ensures
        run_spec(p, events).len() == events.len(),
        run_spec(p, events)[k] is TimedOut,
        run_spec(p, events)[k]->TimedOut_0.last == failure_of(events[k].1).unwrap(),
        forall|j: int| 0 <= j < k ==> run_spec(p, events)[j] is RetryAfter,
        forall|j: int| k < j < events.len() ==> run_spec(p, events)[j] is Finished,
    decreases k,
{
    let (next, step) = step_spec(p, events[0].0, events[0].1);
    let rest = events.drop_first();
    if k == 0 {
        lemma_ended_run_stays(next, rest);
    } else {
        assert(forall|j: int| 0 <= j < k - 1 ==> rest[j] == events[j + 1]);
        lemma_deadline_reports_timeout(next, rest, k - 1);
    }
}

} // verus!
