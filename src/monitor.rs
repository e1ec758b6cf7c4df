use vstd::prelude::*;

use crate::cleanup::Trigger;
use crate::signal_kind::TermSignal;

verus! {

/// The id of the process that adopts orphans.
pub const REAPER_PID: i32 = 1;

/// Seconds between two polls of the polling monitor.
pub const POLL_INTERVAL_SECS: u64 = 5;

/// What the polling monitor does after reading its parent id.
#[derive(Clone, Copy, Debug, PartialEq, Eq, Structural)]
pub enum PollStep {
    /// Sleep this many seconds, then poll again.
    Sleep(u64),
    /// Tear the group down as this trigger says.
    TearDown(Trigger),
}

/// The polling monitor's decision on the parent id it read.
pub open spec fn poll_spec(parent: i32) -> PollStep {
    if parent == REAPER_PID {
        PollStep::TearDown(Trigger::ParentGone)
    } else {
        PollStep::Sleep(POLL_INTERVAL_SECS)
    }
}

/// Decides one poll: a process whose parent id is the reaper's has lost its
/// parent, and tears the group down; any other parent means keep watching.
pub fn poll(parent: i32) -> (r: PollStep)
    ensures
        r == poll_spec(parent),
{
    if parent == REAPER_PID {
        PollStep::TearDown(Trigger::ParentGone)
    } else {
        PollStep::Sleep(POLL_INTERVAL_SECS)
    }
}

/// The signal the kernel is asked to send when the parent dies.
pub fn death_notice_signal() -> (r: TermSignal)
    ensures
        r == TermSignal::Hangup,
{
    TermSignal::Hangup
}

/// The trigger that the kernel's parent-death signal stands for.
pub fn notice_trigger() -> (r: Trigger)
    ensures
        r == Trigger::ParentDied,
{
    Trigger::ParentDied
}

/// The signals whose arrival sets off a quit teardown.
pub fn quit_signals() -> (r: Vec<TermSignal>)
    ensures
        r@ == seq![TermSignal::Interrupt, TermSignal::Quit, TermSignal::Terminate],
{
    vec![TermSignal::Interrupt, TermSignal::Quit, TermSignal::Terminate]
}

/// The polling monitor reacts to the poll that first sees its parent gone,
/// and waits at most one interval between two polls, so an orphaned group is
/// torn down no later than one interval after the parent dies.
pub proof fn lemma_poll_detects_orphaning(parent: i32)
    ensures
        poll_spec(parent) is TearDown <==> parent == REAPER_PID,
        poll_spec(parent) matches PollStep::Sleep(s) ==> s == POLL_INTERVAL_SECS,
        POLL_INTERVAL_SECS < 6,
{
}

} // verus!
