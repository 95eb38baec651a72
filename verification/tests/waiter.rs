use upgrade_job::waiter::{QuiescenceWaiter, WaitAction, WaitStage};

/// Runs a wait against scripted looks: `true` for busy. Gives back the
/// number of looks, the sleeps in order, and whether the wait returned
/// before the script ran out.
fn run(mut waiter: QuiescenceWaiter, readings: &[bool]) -> (usize, Vec<u64>, bool) {
    let mut polls = 0;
    let mut sleeps = Vec::new();
    loop {
        match waiter.action() {
            WaitAction::Return => return (polls, sleeps, true),
            WaitAction::Sleep { seconds } => {
                sleeps.push(seconds);
                waiter = waiter.elapsed();
            }
            WaitAction::Poll => {
                if polls == readings.len() {
                    return (polls, sleeps, false);
                }
                waiter = waiter.observed(readings[polls]);
                polls += 1;
            }
        }
    }
}

#[test]
fn waiter_returns_at_the_first_quiescent_look() {
    let (polls, sleeps, returned) = run(QuiescenceWaiter::new(10, 0), &[true, true, false]);
    assert!(returned);
    // Two looks find the cluster busy, the third lets the wait return.
    assert_eq!(polls, 3);
    assert_eq!(sleeps, vec![10, 10]);
}

#[test]
fn waiter_consumes_one_interval_per_busy_look() {
    let (polls, sleeps, returned) =
        run(QuiescenceWaiter::new(10, 0), &[true, true, true, false, true, false]);
    assert!(returned);
    assert_eq!(polls, 4);
    assert_eq!(sleeps, vec![10, 10, 10]);
}

#[test]
fn waiter_returns_at_once_when_nothing_is_busy() {
    let (polls, sleeps, returned) = run(QuiescenceWaiter::new(10, 0), &[false]);
    assert!(returned);
    assert_eq!(polls, 1);
    assert_eq!(sleeps, Vec::<u64>::new());
}

#[test]
fn waiter_never_returns_while_busy() {
    let busy = vec![true; 500];
    let (polls, sleeps, returned) = run(QuiescenceWaiter::new(3, 0), &busy);
    assert!(!returned);
    assert_eq!(polls, 500);
    assert_eq!(sleeps, vec![3; 500]);
}

#[test]
fn waiter_sleeps_through_its_grace_period_first() {
    let (polls, sleeps, returned) = run(QuiescenceWaiter::new(10, 60), &[true, false]);
    assert!(returned);
    assert_eq!(polls, 2);
    assert_eq!(sleeps, vec![60, 10]);
}

#[test]
fn waiter_without_grace_period_looks_first() {
    let waiter = QuiescenceWaiter::new(10, 0);
    assert_eq!(waiter.stage, WaitStage::Polling);
    assert_eq!(waiter.action(), WaitAction::Poll);
    let waiter = QuiescenceWaiter::new(10, 1);
    assert_eq!(waiter.stage, WaitStage::Delaying);
    assert_eq!(waiter.action(), WaitAction::Sleep { seconds: 1 });
}

#[test]
fn waiter_keeps_its_request_when_told_something_else() {
    let polling = QuiescenceWaiter::new(10, 0);
    assert_eq!(polling.elapsed(), polling);
    let delaying = QuiescenceWaiter::new(10, 60);
    assert_eq!(delaying.observed(false), delaying);
    assert_eq!(delaying.observed(true), delaying);
    let over = polling.observed(false);
    assert!(over.is_quiescent());
    assert_eq!(over.action(), WaitAction::Return);
    assert_eq!(over.elapsed(), over);
    assert_eq!(over.observed(true), over);
    assert!(!polling.is_quiescent());
}

#[test]
fn waiter_pauses_for_its_interval_after_a_busy_look() {
    let pausing = QuiescenceWaiter::new(7, 60).elapsed().observed(true);
    assert_eq!(pausing.stage, WaitStage::Pausing);
    assert_eq!(pausing.action(), WaitAction::Sleep { seconds: 7 });
    assert_eq!(pausing.elapsed().action(), WaitAction::Poll);
}
