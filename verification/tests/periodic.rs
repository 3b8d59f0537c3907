use tokio_osinterval::sys::fd::{
    cloexec_flags, next_action, setup_next, ErrorKind, FdAction, FdEvent, SetupAction, SetupStage,
};
use tokio_osinterval::{Duration, Expirations, PeriodicInterval};

fn ticker() -> PeriodicInterval {
    PeriodicInterval::new::<&str>(Duration::from_millis(5), Ok(())).expect("create periodic")
}

#[test]
fn period_accessor() {
    let period = Duration::from_millis(5);
    let iv = PeriodicInterval::new::<&str>(period, Ok(())).expect("create periodic");
    assert_eq!(iv.period(), period);
}

#[test]
fn failed_timer_is_reported() {
    let iv = PeriodicInterval::new(Duration::from_millis(5), Err("no timers left"));
    assert_eq!(iv.unwrap_err(), "no timers left");
}

#[test]
fn coalesced_expirations_are_counted() {
    let mut iv = ticker();
    let event: FdEvent<Expirations, &str> = FdEvent::Completed(6);
    assert!(matches!(iv.poll_tick(event), FdAction::Ready(6)));
    assert_eq!(iv.period(), Duration::from_millis(5));
}

#[test]
fn polling_retries_what_can_be_retried() {
    let mut iv = ticker();
    let interrupted = FdEvent::ReadFailed(ErrorKind::Interrupted, "signal");
    assert!(matches!(iv.poll_tick(interrupted), FdAction::PollAgain));
    let empty: FdEvent<Expirations, &str> = FdEvent::WouldBlock;
    assert!(matches!(iv.poll_tick(empty), FdAction::PollAgain));
}

#[test]
fn polling_reports_other_failures() {
    let mut iv = ticker();
    let failed = FdEvent::ReadFailed(ErrorKind::Other, "broken");
    assert!(matches!(iv.poll_tick(failed), FdAction::Fail("broken")));
    assert!(matches!(iv.poll_tick(FdEvent::ReactorFailed("gone")), FdAction::Fail("gone")));
}

#[test]
fn polling_reads_when_readable() {
    let not_ready: FdEvent<(), &str> = FdEvent::NotReady;
    assert!(matches!(next_action(not_ready), FdAction::Pending));
    let readable: FdEvent<(), &str> = FdEvent::Readable;
    assert!(matches!(next_action(readable), FdAction::Read));
    let done: FdEvent<(), &str> = FdEvent::Completed(());
    assert!(matches!(next_action(done), FdAction::Ready(())));
}

/// How a setup ends when its calls return `rcs`.
fn set_up(periodic: bool, rcs: &[i32]) -> SetupAction {
    let mut action = SetupAction::Continue(SetupStage::Create);
    for rc in rcs {
        action = match action {
            SetupAction::Continue(stage) => setup_next(stage, periodic, *rc),
            ended => ended,
        };
    }
    action
}

#[test]
fn setup_needs_every_call() {
    assert_eq!(set_up(true, &[3, 0, 0]), SetupAction::Finish);
    assert_eq!(set_up(true, &[-1, 0, 0]), SetupAction::Fail);
    assert_eq!(set_up(true, &[3, -1, 0]), SetupAction::Fail);
    assert_eq!(set_up(true, &[3, 0, -1]), SetupAction::Fail);
    assert_eq!(set_up(true, &[3, 0]), SetupAction::Continue(SetupStage::Register));
    assert_eq!(set_up(false, &[3, 0]), SetupAction::Finish);
    assert_eq!(set_up(false, &[3, -1]), SetupAction::Fail);
}

#[test]
fn close_on_exec_is_added_to_the_flags() {
    assert_eq!(cloexec_flags(0x2, 0x1), Some(0x3));
    assert_eq!(cloexec_flags(0x1, 0x1), Some(0x1));
    assert_eq!(cloexec_flags(-1, 0x1), None);
}

#[test]
fn tick_reports_the_count_that_was_read() {
    let mut iv = ticker();
    for n in [1, 2, u64::MAX] {
        let event: FdEvent<Expirations, &str> = FdEvent::Completed(n);
        assert!(matches!(iv.poll_tick(event), FdAction::Ready(count) if count == n));
    }
}

/// The counts of the ticks that reads at `times` deliver, in milliseconds from the arming of a
/// kernel timer that fires every `every`.
fn ticks(iv: &mut PeriodicInterval, every: u64, times: &[u64]) -> Vec<Expirations> {
    let mut reported = 0;
    let mut counts = Vec::new();
    for now in times {
        let pending = now / every - reported;
        let event: FdEvent<Expirations, &str> = if pending > 0 {
            FdEvent::Completed(pending)
        } else {
            FdEvent::WouldBlock
        };
        match iv.poll_tick(event) {
            FdAction::Ready(count) => counts.push(count),
            FdAction::PollAgain => {}
            _ => panic!("a read gives a count or nothing"),
        }
        reported += pending;
    }
    counts
}

#[test]
fn counts_never_outrun_the_clock() {
    let mut iv = PeriodicInterval::new::<&str>(Duration::from_millis(20), Ok(())).unwrap();
    assert_eq!(ticks(&mut iv, 20, &[0, 19]), Vec::<Expirations>::new());
    let times = [5, 20, 25, 41, 59, 130, 131, 145];
    let counts = ticks(&mut iv, 20, &times);
    assert_eq!(counts, vec![1, 1, 4, 1]);
    assert_eq!(counts.iter().sum::<u64>(), 145 / 20);
    assert!(counts.iter().sum::<u64>() * 20 <= 145);
    assert_eq!(ticks(&mut iv, 20, &[20, 40, 60, 80, 100]), vec![1; 5]);
}

/// What a poll that meets `events` ends with.
fn poll(events: Vec<FdEvent<u64, &'static str>>) -> FdAction<u64, &'static str> {
    let mut action = FdAction::PollAgain;
    for event in events {
        action = match action {
            FdAction::PollAgain | FdAction::Read => next_action(event),
            ended => ended,
        };
    }
    action
}

#[test]
fn poll_ends_with_the_first_decisive_event() {
    let signal = || FdEvent::ReadFailed(ErrorKind::Interrupted, "signal");
    let end = poll(vec![
        FdEvent::Readable,
        signal(),
        FdEvent::Readable,
        FdEvent::WouldBlock,
        FdEvent::Readable,
        FdEvent::Completed(4),
        FdEvent::NotReady,
    ]);
    assert!(matches!(end, FdAction::Ready(4)));
    let end = poll(vec![FdEvent::Readable, FdEvent::WouldBlock, FdEvent::NotReady]);
    assert!(matches!(end, FdAction::Pending));
    let end = poll(vec![FdEvent::Readable, FdEvent::ReadFailed(ErrorKind::Other, "broken")]);
    assert!(matches!(end, FdAction::Fail("broken")));
    let end = poll(vec![FdEvent::ReactorFailed("gone"), FdEvent::NotReady]);
    assert!(matches!(end, FdAction::Fail("gone")));
    assert!(matches!(poll(vec![FdEvent::Readable, signal()]), FdAction::PollAgain));
}
