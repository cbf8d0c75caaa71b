use deploy_smoke::poll::{PollStatus, PollStep, Poller, POLL_INTERVAL_MS};

#[test]
fn interval_is_two_hundred_ms() {
    assert_eq!(POLL_INTERVAL_MS, 200);
}

#[test]
fn past_deadline_before_first_attempt_fails_at_once() {
    let mut p = Poller::new(3000);
    assert_eq!(p.tick(3001), PollStep::TimedOut { elapsed_ms: 3001 });
    assert_eq!(p.attempts, 0);
    assert_eq!(p.status, PollStatus::TimedOut);
}

#[test]
fn never_ready_times_out_only_after_deadline() {
    let mut p = Poller::new(1000);
    let mut elapsed: u64 = 0;
    loop {
        match p.tick(elapsed) {
            PollStep::Attempt => {
                assert!(elapsed <= 1000);
                assert_eq!(p.outcome(false), PollStep::Sleep { ms: 200 });
                elapsed += 200;
            }
            PollStep::TimedOut { elapsed_ms } => {
                assert!(elapsed_ms >= 1000);
                assert_eq!(elapsed_ms, 1200);
                break;
            }
            other => panic!("unexpected step {:?}", other),
        }
    }
    assert_eq!(p.attempts, 6);
    assert_eq!(p.slept_ms, 1200);
}

#[test]
fn deadline_itself_still_allows_an_attempt() {
    let mut p = Poller::new(1000);
    assert_eq!(p.tick(1000), PollStep::Attempt);
}

#[test]
fn ready_on_third_attempt_makes_exactly_three() {
    let mut p = Poller::new(3000);
    let mut calls: u64 = 0;
    let mut elapsed: u64 = 0;
    loop {
        match p.tick(elapsed) {
            PollStep::Attempt => {
                calls += 1;
                match p.outcome(calls == 3) {
                    PollStep::Sleep { ms } => elapsed += ms,
                    PollStep::Finish => break,
                    other => panic!("unexpected step {:?}", other),
                }
            }
            other => panic!("unexpected step {:?}", other),
        }
    }
    assert_eq!(calls, 3);
    assert_eq!(p.attempts, 3);
    assert_eq!(p.slept_ms, 400);
    assert!(elapsed >= 2 * 200);
    assert_eq!(p.status, PollStatus::Ready);
}

#[test]
fn ready_at_once_incurs_no_pause() {
    let mut p = Poller::new(3000);
    assert_eq!(p.tick(0), PollStep::Attempt);
    assert_eq!(p.outcome(true), PollStep::Finish);
    assert_eq!(p.attempts, 1);
    assert_eq!(p.slept_ms, 0);
}
