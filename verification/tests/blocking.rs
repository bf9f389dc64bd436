//! Waiting with a timeout.

use autospot::blocking::{wait_step, Wait};
use autospot::time::{Duration, Instant};

fn at(secs: u64) -> Instant {
    Instant::at(Duration::from_secs(secs))
}

#[test]
fn a_ready_operation_is_not_waited_for() {
    assert_eq!(wait_step(true, at(1), at(2)), Wait::Ready);
    assert_eq!(wait_step(true, at(3), at(2)), Wait::Ready);
}

#[test]
fn waiting_ends_at_the_deadline() {
    assert_eq!(
        wait_step(false, at(1), at(5)),
        Wait::Sleep {
            at_most: Duration::from_secs(4)
        }
    );
    assert_eq!(wait_step(false, at(5), at(5)), Wait::TimedOut);
    assert_eq!(wait_step(false, at(6), at(5)), Wait::TimedOut);
}
