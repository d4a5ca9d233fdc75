use hal_mik32::wait::{unbounded_step, PollWait, WaitStep};

#[test]
fn a_bounded_wait_polls_at_most_its_budget() {
    let mut wait = PollWait::new(2);
    assert_eq!(wait.start::<()>(), WaitStep::Poll);
    assert_eq!(wait.after_poll::<()>(Ok(false)), WaitStep::Poll);
    assert_eq!(wait.after_poll::<()>(Ok(false)), WaitStep::TimedOut);
    assert_eq!(wait.remaining, 0);
}

#[test]
fn a_bounded_wait_with_no_budget_never_polls() {
    assert_eq!(PollWait::new(0).start::<u8>(), WaitStep::TimedOut);
}

#[test]
fn a_bounded_wait_stops_on_success_or_error() {
    let mut wait = PollWait::new(5);
    assert_eq!(wait.after_poll::<u8>(Ok(true)), WaitStep::Done);
    assert_eq!(wait.after_poll::<u8>(Err(7)), WaitStep::Failed(7));
    assert_eq!(wait.remaining, 5);
}

#[test]
fn a_readiness_wait_checks_once_then_retries() {
    let mut wait = PollWait::new(1);
    assert_eq!(wait.after_check::<()>(false), WaitStep::Poll);
    assert_eq!(wait.after_check::<()>(false), WaitStep::TimedOut);
    let mut wait = PollWait::new(0);
    assert_eq!(wait.after_check::<()>(true), WaitStep::Done);
}

#[test]
fn an_unbounded_wait_never_times_out() {
    assert_eq!(unbounded_step::<u8>(Ok(false)), WaitStep::Poll);
    assert_eq!(unbounded_step::<u8>(Ok(true)), WaitStep::Done);
    assert_eq!(unbounded_step::<u8>(Err(3)), WaitStep::Failed(3));
}
