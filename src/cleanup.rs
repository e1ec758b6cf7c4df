use vstd::prelude::*;

use crate::signal_kind::TermSignal;
use crate::target::Target;

verus! {

/// What set a teardown off.
#[derive(Clone, Copy, Debug, PartialEq, Eq, Structural)]
pub enum Trigger {
    /// An interrupt, quit or terminate signal reached the process.
    Quit,
    /// The kernel reported that the parent died.
    ParentDied,
    /// A poll found the process handed to the reaper, so its parent is gone.
    ParentGone,
    /// A direct child terminated.
    ChildDied,
}

/// How a failed broadcast is treated. A group that no longer exists is never
/// a failure.
#[derive(Clone, Copy, Debug, PartialEq, Eq, Structural)]
pub enum FailurePolicy {
    /// Any other failure aborts the process: a silent miss is worse.
    Fatal,
    /// Failures are swallowed: the process ends anyway.
    Tolerated,
}

/// How the process ends once the broadcast went out.
#[derive(Clone, Copy, Debug, PartialEq, Eq, Structural)]
pub enum Ending {
    /// No explicit exit: the broadcast reaches the process itself.
    ByBroadcast,
    /// Exit with the code handed on by the reaped children.
    ChildCode,
    /// Exit with code 0.
    Clean,
}

/// One teardown, as the steps that run in order: reap the terminated
/// children (if `reap`), restore the default disposition of `restore`, send
/// `broadcast.signal` to `broadcast.group`, judge a failure by `on_failure`,
/// then end as `ending` says.
#[derive(Clone, Copy, Debug, PartialEq, Eq, Structural)]
pub struct Cleanup {
    pub reap: bool,
    pub restore: TermSignal,
    pub broadcast: Target,
    pub on_failure: FailurePolicy,
    pub ending: Ending,
}

/// The teardown that `trigger` sets off against `target`.
pub open spec fn cleanup_spec(trigger: Trigger, target: Target) -> Cleanup {
    Cleanup {
        reap: trigger == Trigger::ChildDied,
        restore: TermSignal::Terminate,
        broadcast: target,
        on_failure: if trigger == Trigger::ChildDied {
            FailurePolicy::Tolerated
        } else {
            FailurePolicy::Fatal
        },
        ending: match trigger {
            Trigger::ChildDied => Ending::ChildCode,
            Trigger::ParentGone => Ending::Clean,
            _ => Ending::ByBroadcast,
        },
    }
}

/// Plans the teardown that `trigger` sets off against `target`.
pub fn cleanup_for(trigger: Trigger, target: Target) -> (r: Cleanup)
    ensures
        r == cleanup_spec(trigger, target),
{
    let child_died = trigger == Trigger::ChildDied;
    let on_failure = if child_died {
        FailurePolicy::Tolerated
    } else {
        FailurePolicy::Fatal
    };
    let ending = match trigger {
        Trigger::ChildDied => Ending::ChildCode,
        Trigger::ParentGone => Ending::Clean,
        _ => Ending::ByBroadcast,
    };
    Cleanup { reap: child_died, restore: TermSignal::default_signal(), broadcast: target, on_failure, ending }
}

/// What sending the signal to the group came to.
#[derive(Clone, Copy, Debug, PartialEq, Eq, Structural)]
pub enum Delivery {
    Delivered,
    /// The group has no member left.
    NoSuchGroup,
    /// Any other failure, with its error number.
    Failed(i32),
}

/// Whether the teardown goes on after a broadcast, or the process aborts.
#[derive(Clone, Copy, Debug, PartialEq, Eq, Structural)]
pub enum Verdict {
    Proceed,
    Abort,
}

/// The verdict on `delivery` under `policy`.
pub open spec fn verdict_spec(policy: FailurePolicy, delivery: Delivery) -> Verdict {
    if policy == FailurePolicy::Fatal && delivery is Failed {
        Verdict::Abort
    } else {
        Verdict::Proceed
    }
}

/// Judges a broadcast: only a real failure under the fatal policy aborts.
pub fn verdict(policy: FailurePolicy, delivery: Delivery) -> (r: Verdict)
    ensures
        r == verdict_spec(policy, delivery),
{
    match delivery {
        Delivery::Failed(_) => match policy {
            FailurePolicy::Fatal => Verdict::Abort,
            FailurePolicy::Tolerated => Verdict::Proceed,
        },
        _ => Verdict::Proceed,
    }
}

/// Whatever set it off, a teardown sends the same signal to the same group:
/// the one the target names.
pub proof fn lemma_trigger_does_not_change_broadcast(a: Trigger, b: Trigger, target: Target)
    ensures
        cleanup_spec(a, target).broadcast == cleanup_spec(b, target).broadcast,
        cleanup_spec(a, target).broadcast == target,
{
}

/// Every teardown restores the default disposition of the terminate signal
/// before it broadcasts, and a broadcast that finds the group already gone
/// never aborts, so a repeated delivery neither re-enters the teardown on
/// that signal nor crashes it.
pub proof fn lemma_repeated_delivery_is_harmless(trigger: Trigger, target: Target, policy: FailurePolicy)
    ensures
        cleanup_spec(trigger, target).restore == TermSignal::Terminate,
        verdict_spec(policy, Delivery::NoSuchGroup) == Verdict::Proceed,
        verdict_spec(policy, Delivery::Delivered) == Verdict::Proceed,
{
}

} // verus!
