use ghss::retry::{Action, Event, LastError, Outcome, Retry, Transient};
use ghss::summary::ValidationError;

/// Runs the machine to its end, answering the limiter with `grant(attempt)`
/// and the operation with `result(attempt)`; returns (checks, sleeps, runs, outcome).
fn drive(
    mut r: Retry,
    grant: impl Fn(u64) -> bool,
    result: impl Fn(u64) -> Event,
) -> (u64, u64, u64, Outcome) {
    let mut checks = 0;
    let mut sleeps = 0;
    let mut runs = 0;
    let mut action = r.action();
    loop {
        match action {
            Action::Finish(o) => return (checks, sleeps, runs, o),
            Action::CheckLimiter | Action::Backoff(_) => {
                if let Action::Backoff(ms) = action {
                    assert_eq!(ms, 1000);
                    sleeps += 1;
                }
                checks += 1;
                let e = if grant(r.attempt) { Event::Admitted } else { Event::Denied };
                action = r.on_event(e);
            }
            Action::RunOperation => {
                runs += 1;
                let e = result(r.attempt);
                action = r.on_event(e);
            }
        }
    }
}

#[test]
fn always_denied_checks_n_times_and_sleeps_n_minus_one() {
    for n in 1..6u64 {
        let got = drive(Retry::new(n, 1000), |_| false, |_| Event::Succeeded);
        assert_eq!(got, (n, n - 1, 0, Outcome::Exhausted(LastError::RateLimited)));
    }
}

#[test]
fn always_failing_operation_is_exhausted() {
    let got = drive(Retry::new(4, 1000), |_| true, |_| Event::Failed(Transient::Status(502)));
    assert_eq!(got, (4, 0, 4, Outcome::Exhausted(LastError::Transient(Transient::Status(502)))));
}

#[test]
fn success_on_third_attempt_stops() {
    let got = drive(Retry::new(10, 1000), |_| true, |a| {
        if a == 2 { Event::Succeeded } else { Event::Failed(Transient::Network) }
    });
    assert_eq!(got, (3, 0, 3, Outcome::Success));
}

#[test]
fn zero_attempts_finish_at_once() {
    let r = Retry::new(0, 1000);
    assert!(r.is_finished());
    assert_eq!(r.action(), Action::Finish(Outcome::Exhausted(LastError::NoAttempts)));
}

#[test]
fn abort_ends_without_retry() {
    let got = drive(Retry::new(5, 1000), |_| true, |_| Event::Aborted(ValidationError::MissingName(0)));
    assert_eq!(got, (1, 0, 1, Outcome::Aborted(ValidationError::MissingName(0))));
}

#[test]
fn denial_then_admission_then_success() {
    let got = drive(Retry::new(3, 1000), |a| a >= 1, |_| Event::Succeeded);
    assert_eq!(got, (2, 1, 1, Outcome::Success));
}

#[test]
fn unexpected_event_changes_nothing() {
    let mut r = Retry::new(3, 250);
    let before = r;
    assert_eq!(r.on_event(Event::Succeeded), Action::CheckLimiter);
    assert_eq!(r, before);
    assert_eq!(r.on_event(Event::Denied), Action::Backoff(250));
    assert_eq!(r.attempt, 1);
}

#[test]
fn cancel_during_backoff_stops() {
    let mut r = Retry::new(5, 1000);
    assert_eq!(r.on_event(Event::Denied), Action::Backoff(1000));
    assert_eq!(r.on_event(Event::Cancelled), Action::Finish(Outcome::Cancelled));
    assert!(r.is_finished());
    assert_eq!(r.on_event(Event::Admitted), Action::Finish(Outcome::Cancelled));
}
