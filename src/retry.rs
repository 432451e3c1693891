//! The retry orchestrator, as a pure state machine.
//!
//! The caller runs the loop: it asks the machine for an [`Action`], performs
//! it (consult the limiter, sleep, run the operation) and hands the result back
//! as an [`Event`]. Every decision is made here.

use crate::summary::ValidationError;
use vstd::prelude::*;

verus! {

/// Answer of the rate limiter to one admission request.
#[derive(Clone, Copy, Debug, PartialEq, Eq, Structural)]
pub enum Admission {
    Admitted,
    Denied,
}

/// A failure of one attempt that another attempt may mend.
#[derive(Clone, Copy, Debug, PartialEq, Eq, Structural)]
pub enum Transient {
    /// The request could not be sent or its response not received.
    Network,
    /// The response had a non-2xx status.
    Status(u16),
    /// The response body was not a list of repository records.
    Unparsable,
}

/// Why an orchestrated operation gave up.
#[derive(Clone, Copy, Debug, PartialEq, Eq, Structural)]
pub enum LastError {
    /// The attempt budget was zero: nothing was tried.
    NoAttempts,
    /// The last attempt was denied by the rate limiter.
    RateLimited,
    /// The last attempt ran the operation, which failed transiently.
    Transient(Transient),
}

/// Final result of an orchestrated operation.
#[derive(Clone, Copy, Debug, PartialEq, Eq, Structural)]
pub enum Outcome {
    Success,
    Exhausted(LastError),
    /// A record of the batch was malformed; retrying cannot mend that.
    Aborted(ValidationError),
    /// The caller called the operation off.
    Cancelled,
}

/// Where the machine stands.
#[derive(Clone, Copy, Debug, PartialEq, Eq, Structural)]
pub enum Phase {
    /// Waiting for the limiter's answer for the current attempt.
    AwaitAdmission,
    /// Admitted: waiting for the result of the operation.
    AwaitOperation,
    /// Done; no further action will be asked for.
    Finished(Outcome),
}

/// What the caller must do next.
#[derive(Clone, Copy, Debug, PartialEq, Eq, Structural)]
pub enum Action {
    /// Ask the limiter for admission, then report `Admitted` or `Denied`.
    CheckLimiter,
    /// Sleep for the given number of milliseconds, then ask the limiter.
    Backoff(u64),
    /// Run the operation once, then report `Succeeded`, `Failed` or `Aborted`.
    RunOperation,
    /// Stop with the given outcome.
    Finish(Outcome),
}

/// What the caller observed while performing the last action.
#[derive(Clone, Copy, Debug, PartialEq, Eq, Structural)]
pub enum Event {
    Admitted,
    Denied,
    Succeeded,
    /// The operation failed transiently: worth another attempt.
    Failed(Transient),
    /// The batch was malformed: no further attempt.
    Aborted(ValidationError),
    /// The caller calls the operation off, at any point before it finished.
    Cancelled,
}

/// State of one orchestrated operation.
#[derive(Clone, Copy, Debug, PartialEq, Eq, Structural)]
pub struct Retry {
    /// Upper bound on the number of attempts.
    pub max_attempts: u64,
    /// Pause after a denied attempt, in milliseconds.
    pub backoff_ms: u64,
    /// Index (from 0) of the current attempt.
    pub attempt: u64,
    pub phase: Phase,
}

impl Retry {
    /// An unfinished machine is always inside its attempt budget.
    pub open spec fn wf(&self) -> bool {
        !(self.phase is Finished) ==> self.attempt < self.max_attempts
    }

    /// The state in which an operation with the given budget starts.
    pub open spec fn initial(max_attempts: u64, backoff_ms: u64) -> Retry {
        Retry {
            max_attempts,
            backoff_ms,
            attempt: 0,
            phase: if max_attempts == 0 {
                Phase::Finished(Outcome::Exhausted(LastError::NoAttempts))
            } else {
                Phase::AwaitAdmission
            },
        }
    }

    /// The action that the state is waiting on.
    pub open spec fn pending(&self) -> Action {
        match self.phase {
            Phase::AwaitAdmission => Action::CheckLimiter,
            Phase::AwaitOperation => Action::RunOperation,
            Phase::Finished(o) => Action::Finish(o),
        }
    }

    /// One transition: the next state and the action it asks for.
    ///
    /// A denial or a transient failure on the last attempt exhausts the
    /// operation; earlier, a denial backs off and a failure retries at once,
    /// each consuming one attempt. An event that does not answer the pending
    /// action changes nothing. An aborting operation, or a cancellation, ends the run at once.
    pub open spec fn next(self, e: Event) -> (Retry, Action) {
        let last = self.attempt + 1 >= self.max_attempts;
        match (self.phase, e) {
            (Phase::AwaitAdmission, Event::Admitted) => {
                let s = Retry { phase: Phase::AwaitOperation, ..self };
                (s, Action::RunOperation)
            },
            (Phase::AwaitAdmission, Event::Denied) => if last {
                let o = Outcome::Exhausted(LastError::RateLimited);
                (Retry { phase: Phase::Finished(o), ..self }, Action::Finish(o))
            } else {
                (Retry { attempt: (self.attempt + 1) as u64, ..self }, Action::Backoff(self.backoff_ms))
            },
            (Phase::AwaitOperation, Event::Succeeded) => {
                (Retry { phase: Phase::Finished(Outcome::Success), ..self }, Action::Finish(Outcome::Success))
            },
            (Phase::AwaitOperation, Event::Aborted(v)) => {
                let o = Outcome::Aborted(v);
                (Retry { phase: Phase::Finished(o), ..self }, Action::Finish(o))
            },
            (Phase::AwaitOperation, Event::Failed(t)) => if last {
                let o = Outcome::Exhausted(LastError::Transient(t));
                (Retry { phase: Phase::Finished(o), ..self }, Action::Finish(o))
            } else {
                let s = Retry { attempt: (self.attempt + 1) as u64, phase: Phase::AwaitAdmission, ..self };
                (s, Action::CheckLimiter)
            },
            (Phase::AwaitAdmission, Event::Cancelled) | (Phase::AwaitOperation, Event::Cancelled) => {
                (Retry { phase: Phase::Finished(Outcome::Cancelled), ..self }, Action::Finish(Outcome::Cancelled))
            },
            _ => (self, self.pending()),
        }
    }

    /// Starts an operation that may make up to `max_attempts` attempts and
    /// sleeps `backoff_ms` milliseconds after each denial.
    pub fn new(max_attempts: u64, backoff_ms: u64) -> (r: Retry)
        ensures
            r == Retry::initial(max_attempts, backoff_ms),
            r.wf(),
    {
        let phase = if max_attempts == 0 {
            Phase::Finished(Outcome::Exhausted(LastError::NoAttempts))
        } else {
            Phase::AwaitAdmission
        };
        Retry { max_attempts, backoff_ms, attempt: 0, phase }
    }

    /// The action that the machine is waiting on.
    pub fn action(&self) -> (a: Action)
        ensures
            a == self.pending(),
    {
        match self.phase {
            Phase::AwaitAdmission => Action::CheckLimiter,
            Phase::AwaitOperation => Action::RunOperation,
            Phase::Finished(o) => Action::Finish(o),
        }
    }

    /// Whether the operation has finished.
    pub fn is_finished(&self) -> (b: bool)
        ensures
            b == (self.phase is Finished),
    {
        match self.phase {
            Phase::Finished(_) => true,
            _ => false,
        }
    }

    /// Feeds one observed event to the machine and returns the next action.
    pub fn on_event(&mut self, e: Event) -> (a: Action)
        requires
            old(self).wf(),
        ensures
            (*final(self), a) == old(self).next(e),
            final(self).wf(),
    {
        match (self.phase, e) {
            (Phase::AwaitAdmission, Event::Admitted) => {
                self.phase = Phase::AwaitOperation;
                Action::RunOperation
            },
            (Phase::AwaitAdmission, Event::Denied) => {
                if self.attempt + 1 >= self.max_attempts {
                    let o = Outcome::Exhausted(LastError::RateLimited);
                    self.phase = Phase::Finished(o);
                    Action::Finish(o)
                } else {
                    self.attempt = self.attempt + 1;
                    Action::Backoff(self.backoff_ms)
                }
            },
            (Phase::AwaitOperation, Event::Succeeded) => {
                self.phase = Phase::Finished(Outcome::Success);
                Action::Finish(Outcome::Success)
            },
            (Phase::AwaitOperation, Event::Aborted(v)) => {
                self.phase = Phase::Finished(Outcome::Aborted(v));
                Action::Finish(Outcome::Aborted(v))
            },
            (Phase::AwaitOperation, Event::Failed(t)) => {
                if self.attempt + 1 >= self.max_attempts {
                    let o = Outcome::Exhausted(LastError::Transient(t));
                    self.phase = Phase::Finished(o);
                    Action::Finish(o)
                } else {
                    self.attempt = self.attempt + 1;
                    self.phase = Phase::AwaitAdmission;
                    Action::CheckLimiter
                }
            },
            (Phase::AwaitAdmission, Event::Cancelled) | (Phase::AwaitOperation, Event::Cancelled) => {
                self.phase = Phase::Finished(Outcome::Cancelled);
                Action::Finish(Outcome::Cancelled)
            },
            _ => self.action(),
        }
    }
}

/// Size of the work left to a well-formed state; each transition lowers it.
pub open spec fn remaining(s: Retry) -> int {
    if s.wf() && !(s.phase is Finished) {
        2 * (s.max_attempts - s.attempt) + if s.phase is AwaitAdmission { 1int } else { 0int }
    } else {
        0
    }
}

/// Drives the machine to its end, the limiter answering attempt `i` with
/// `admits(i)` and the operation at attempt `i` succeeding where `fails(i)` is
/// `None` and failing transiently with `t` where it is `Some(t)`. The result
/// counts the admission checks, the backoff sleeps and the runs of the
/// operation, and gives the outcome.
pub open spec fn drive(s: Retry, admits: spec_fn(nat) -> bool, fails: spec_fn(nat) -> Option<Transient>) -> (
    nat,
    nat,
    nat,
    Outcome,
)
    decreases remaining(s),
{
    if !s.wf() {
        (0, 0, 0, Outcome::Exhausted(LastError::NoAttempts))
    } else {
        match s.phase {
            Phase::Finished(o) => (0, 0, 0, o),
            Phase::AwaitAdmission => {
                let e = if admits(s.attempt as nat) { Event::Admitted } else { Event::Denied };
                let t = s.next(e);
                let r = drive(t.0, admits, fails);
                (r.0 + 1, r.1 + if t.1 is Backoff { 1nat } else { 0nat }, r.2, r.3)
            },
            Phase::AwaitOperation => {
                let e = match fails(s.attempt as nat) {
                    None => Event::Succeeded,
                    Some(f) => Event::Failed(f),
                };
                let t = s.next(e);
                let r = drive(t.0, admits, fails);
                (r.0, r.1, r.2 + 1, r.3)
            },
        }
    }
}

proof fn lemma_denied_from(s: Retry, admits: spec_fn(nat) -> bool, fails: spec_fn(nat) -> Option<Transient>)
    requires
        s.wf(),
        s.phase is AwaitAdmission,
        forall|i: nat| !#[trigger] admits(i),
    ensures
        drive(s, admits, fails) == (
            (s.max_attempts - s.attempt) as nat,
            (s.max_attempts - s.attempt - 1) as nat,
            0nat,
            Outcome::Exhausted(LastError::RateLimited),
        ),
    decreases s.max_attempts - s.attempt,
{
    reveal_with_fuel(drive, 3);
    assert(!admits(s.attempt as nat));
    let t = s.next(Event::Denied);
    if s.attempt + 1 < s.max_attempts {
        lemma_denied_from(t.0, admits, fails);
    }
}

/// With a limiter that denies every request and a budget of `n >= 1`
/// attempts, the orchestrator makes exactly `n` admission checks and `n - 1`
/// backoff sleeps, never runs the operation, and ends exhausted by the rate
/// limit.
pub proof fn lemma_always_denied(n: u64, backoff_ms: u64, fails: spec_fn(nat) -> Option<Transient>)
    requires
        n >= 1,
    ensures
        drive(Retry::initial(n, backoff_ms), |i: nat| false, fails) == (
            n as nat,
            (n - 1) as nat,
            0nat,
            Outcome::Exhausted(LastError::RateLimited),
        ),
{
    lemma_denied_from(Retry::initial(n, backoff_ms), |i: nat| false, fails);
}

proof fn lemma_failing_from(s: Retry, admits: spec_fn(nat) -> bool, fails: spec_fn(nat) -> Option<Transient>)
    requires
        s.wf(),
        s.phase is AwaitAdmission,
        forall|i: nat| #[trigger] admits(i),
        forall|i: nat| #[trigger] fails(i) is Some,
    ensures
        drive(s, admits, fails) == (
            (s.max_attempts - s.attempt) as nat,
            0nat,
            (s.max_attempts - s.attempt) as nat,
            Outcome::Exhausted(LastError::Transient(fails((s.max_attempts - 1) as nat)->Some_0)),
        ),
    decreases s.max_attempts - s.attempt,
{
    reveal_with_fuel(drive, 3);
    assert(admits(s.attempt as nat));
    assert(fails(s.attempt as nat) is Some);
    let t = s.next(Event::Admitted);
    let u = t.0.next(Event::Failed(fails(s.attempt as nat)->Some_0));
    if s.attempt + 1 < s.max_attempts {
        lemma_failing_from(u.0, admits, fails);
    }
}

/// With a limiter that admits every request and an operation that always
/// fails transiently, the orchestrator never reports success; with a budget
/// of `n >= 1` attempts it runs the operation `n` times, never sleeps, and
/// ends exhausted by the failure of the last attempt.
pub proof fn lemma_always_failing(n: u64, backoff_ms: u64, fails: spec_fn(nat) -> Option<Transient>)
    requires
        forall|i: nat| #[trigger] fails(i) is Some,
    ensures
        drive(Retry::initial(n, backoff_ms), |i: nat| true, fails).3 != Outcome::Success,
        n >= 1 ==> drive(Retry::initial(n, backoff_ms), |i: nat| true, fails) == (
            n as nat,
            0nat,
            n as nat,
            Outcome::Exhausted(LastError::Transient(fails((n - 1) as nat)->Some_0)),
        ),
{
    reveal_with_fuel(drive, 1);
    if n >= 1 {
        lemma_failing_from(Retry::initial(n, backoff_ms), |i: nat| true, fails);
    }
}

proof fn lemma_succeeds_at(s: Retry, k: nat, admits: spec_fn(nat) -> bool, fails: spec_fn(nat) -> Option<Transient>)
    requires
        s.wf(),
        s.phase is AwaitAdmission,
        s.attempt <= k < s.max_attempts,
        forall|i: nat| #[trigger] admits(i),
        forall|i: nat| s.attempt <= i < k ==> #[trigger] fails(i) is Some,
        fails(k) is None,
    ensures
        drive(s, admits, fails) == (
            (k - s.attempt + 1) as nat,
            0nat,
            (k - s.attempt + 1) as nat,
            Outcome::Success,
        ),
    decreases k - s.attempt,
{
    reveal_with_fuel(drive, 3);
    assert(admits(s.attempt as nat));
    let t = s.next(Event::Admitted);
    if s.attempt < k {
        assert(fails(s.attempt as nat) is Some);
        let u = t.0.next(Event::Failed(fails(s.attempt as nat)->Some_0));
        lemma_succeeds_at(u.0, k, admits, fails);
    }
}

/// With a limiter that admits every request and an operation that fails
/// transiently on its first two attempts and succeeds on the third, a budget
/// of `n >= 3` attempts ends in success after exactly three admission checks
/// and three runs of the operation, with no backoff.
pub proof fn lemma_third_attempt_succeeds(n: u64, backoff_ms: u64, fails: spec_fn(nat) -> Option<Transient>)
    requires
        n >= 3,
        fails(0) is Some,
        fails(1) is Some,
        fails(2) is None,
    ensures
        drive(Retry::initial(n, backoff_ms), |i: nat| true, fails) == (3nat, 0nat, 3nat, Outcome::Success),
{
    assert forall|i: nat| 0 <= i < 2 implies #[trigger] fails(i) is Some by {
        if i == 1 {
        }
    }
    lemma_succeeds_at(Retry::initial(n, backoff_ms), 2, |i: nat| true, fails);
}

} // verus!
