use caoe::cleanup::{cleanup_for, verdict, Delivery, Ending, FailurePolicy, Trigger, Verdict};
use caoe::monitor::{death_notice_signal, notice_trigger, poll, quit_signals, PollStep, POLL_INTERVAL_SECS};
use caoe::reaper::{exit_code_of, Reaper, WaitOutcome};
use caoe::signal_kind::TermSignal;
use caoe::target::Target;

#[test]
fn exit_code_is_low_byte() {
    assert_eq!(exit_code_of(0), 0);
    assert_eq!(exit_code_of(42), 42);
    assert_eq!(exit_code_of(255), 255);
    assert_eq!(exit_code_of(256), 0);
    assert_eq!(exit_code_of(259), 3);
    assert_eq!(exit_code_of(-1), 255);
    assert_eq!(exit_code_of(i32::MIN), 0);
}

#[test]
fn monitor_exit_code_mirrors_first_reaped_child() {
    let mut r = Reaper::new();
    assert!(r.observe(WaitOutcome::Exited(7)));
    assert!(r.observe(WaitOutcome::Exited(9)));
    assert!(!r.observe(WaitOutcome::Pending));
    assert_eq!(r.exit_code(), 7);
}

#[test]
fn exit_code_masked_to_one_byte() {
    let mut r = Reaper::new();
    assert!(r.observe(WaitOutcome::Exited(0x1ff)));
    assert!(!r.observe(WaitOutcome::Exhausted));
    assert_eq!(r.exit_code(), 0xff);
}

#[test]
fn killed_child_gives_code_zero() {
    let mut r = Reaper::new();
    assert!(r.observe(WaitOutcome::Killed));
    assert!(r.observe(WaitOutcome::Exited(3)));
    assert_eq!(r.exit_code(), 0);
}

#[test]
fn nothing_reaped_gives_code_zero() {
    let mut r = Reaper::new();
    assert!(!r.observe(WaitOutcome::Exhausted));
    assert_eq!(r.exit_code(), 0);
    assert_eq!(r.first_code, None);
}

#[test]
fn every_trigger_broadcasts_the_target() {
    let target = Target::new(500, TermSignal::Interrupt);
    for t in [Trigger::Quit, Trigger::ParentDied, Trigger::ParentGone, Trigger::ChildDied] {
        let c = cleanup_for(t, target);
        assert_eq!(c.broadcast, target);
        assert_eq!(c.restore, TermSignal::Terminate);
    }
}

#[test]
fn cleanup_plans_per_trigger() {
    let target = Target::new(12, TermSignal::Terminate);
    let quit = cleanup_for(Trigger::Quit, target);
    assert!(!quit.reap);
    assert_eq!(quit.on_failure, FailurePolicy::Fatal);
    assert_eq!(quit.ending, Ending::ByBroadcast);
    let notice = cleanup_for(Trigger::ParentDied, target);
    assert_eq!(notice, quit);
    let polled = cleanup_for(Trigger::ParentGone, target);
    assert!(!polled.reap);
    assert_eq!(polled.on_failure, FailurePolicy::Fatal);
    assert_eq!(polled.ending, Ending::Clean);
    let child = cleanup_for(Trigger::ChildDied, target);
    assert!(child.reap);
    assert_eq!(child.on_failure, FailurePolicy::Tolerated);
    assert_eq!(child.ending, Ending::ChildCode);
}

#[test]
fn missing_group_is_benign() {
    assert_eq!(verdict(FailurePolicy::Fatal, Delivery::NoSuchGroup), Verdict::Proceed);
    assert_eq!(verdict(FailurePolicy::Tolerated, Delivery::NoSuchGroup), Verdict::Proceed);
    assert_eq!(verdict(FailurePolicy::Fatal, Delivery::Delivered), Verdict::Proceed);
}

#[test]
fn other_failures_abort_only_when_fatal() {
    assert_eq!(verdict(FailurePolicy::Fatal, Delivery::Failed(libc::EPERM)), Verdict::Abort);
    assert_eq!(verdict(FailurePolicy::Tolerated, Delivery::Failed(libc::EPERM)), Verdict::Proceed);
}

#[test]
fn repeated_delivery_after_cleanup_is_harmless() {
    let target = Target::new(99, TermSignal::Terminate);
    let first = cleanup_for(Trigger::Quit, target);
    assert_eq!(verdict(first.on_failure, Delivery::Delivered), Verdict::Proceed);
    let again = cleanup_for(Trigger::Quit, target);
    assert_eq!(again, first);
    assert_eq!(verdict(again.on_failure, Delivery::NoSuchGroup), Verdict::Proceed);
}

#[test]
fn poll_tears_down_only_when_orphaned() {
    assert_eq!(poll(1), PollStep::TearDown(Trigger::ParentGone));
    assert_eq!(poll(4242), PollStep::Sleep(5));
    assert_eq!(poll(0), PollStep::Sleep(POLL_INTERVAL_SECS));
    assert!(POLL_INTERVAL_SECS < 6);
}

#[test]
fn kernel_notice_and_quit_signals() {
    assert_eq!(death_notice_signal(), TermSignal::Hangup);
    assert_eq!(notice_trigger(), Trigger::ParentDied);
    assert_eq!(
        quit_signals(),
        vec![TermSignal::Interrupt, TermSignal::Quit, TermSignal::Terminate]
    );
}
