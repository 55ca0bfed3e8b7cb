use siderunner::poll::{Poll, PollStep};

#[test]
fn interval_is_a_third_of_the_timeout() {
    assert_eq!(Poll::new(5000).interval(), 1666);
    assert_eq!(Poll::new(3).interval(), 1);
    assert_eq!(Poll::new(2).interval(), 0);
    assert_eq!(Poll::new(0).interval(), 0);
    assert_eq!(Poll::new(5000).timeout(), 5000);
}

#[test]
fn probe_that_holds_succeeds_at_once() {
    let poll = Poll::new(5000);
    assert_eq!(poll.decide(0, true), PollStep::Succeed);
    assert_eq!(poll.decide(1999, true), PollStep::Succeed);
    assert_eq!(poll.decide(5000, true), PollStep::Succeed);
    assert_eq!(poll.decide(u64::MAX, true), PollStep::Succeed);
}

#[test]
fn probe_that_fails_before_the_deadline_retries() {
    let poll = Poll::new(5000);
    assert_eq!(poll.decide(0, false), PollStep::Retry(1666));
    assert_eq!(poll.decide(4999, false), PollStep::Retry(1666));
}

#[test]
fn probe_that_fails_at_the_deadline_times_out() {
    let poll = Poll::new(5000);
    assert_eq!(poll.decide(5000, false), PollStep::TimedOut);
    assert_eq!(poll.decide(5001, false), PollStep::TimedOut);
    assert_eq!(Poll::new(0).decide(0, false), PollStep::TimedOut);
}

#[test]
fn never_true_condition_is_probed_a_few_times_then_times_out() {
    let poll = Poll::new(9000);
    let mut elapsed: u64 = 0;
    let mut retries = 0;
    loop {
        match poll.decide(elapsed, false) {
            PollStep::Retry(pause) => {
                retries += 1;
                elapsed += pause;
            }
            PollStep::TimedOut => break,
            PollStep::Succeed => panic!("the condition never held"),
        }
    }
    assert_eq!(retries, 3);
    assert!(elapsed >= 9000);
}

#[test]
fn condition_true_after_two_seconds_succeeds_at_next_probe() {
    let poll = Poll::new(5000);
    let mut elapsed: u64 = 0;
    let mut probes = 0;
    let outcome = loop {
        probes += 1;
        match poll.decide(elapsed, elapsed >= 2000) {
            PollStep::Retry(pause) => elapsed += pause,
            other => break other,
        }
    };
    assert_eq!(outcome, PollStep::Succeed);
    assert_eq!(probes, 3);
    assert_eq!(elapsed, 3332);
}
