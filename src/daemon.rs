use vstd::prelude::*;

use crate::signal_kind::TermSignal;
use crate::target::Target;

verus! {

/// How a process sets itself up for convergent teardown.
#[derive(Clone, Copy, Debug, PartialEq, Eq, Structural)]
pub enum RunAs {
    /// In place: handlers against the caller's own process, no forking.
    Simple,
    /// Double fork: a monitor process watches a detached supervisor.
    Fork,
}

/// Where a process stands in the setup protocol.
#[derive(Clone, Copy, Debug, PartialEq, Eq, Structural)]
pub enum Stage {
    /// In place: the handlers are being armed against the own process.
    InPlace,
    /// About to fork for the first time.
    Start,
    /// Parent side of the first fork: arming against the child's group.
    Anchor { child: i32 },
    /// Child side of the first fork: its target is being reset to itself.
    Detached { own: i32 },
    /// A new group led by `own` is being created.
    Grouping { own: i32 },
    /// The process leads group `own` and forks for the second time.
    Grouped { own: i32 },
    /// Child side of the second fork: its target is being reset to itself.
    Resetting { own: i32 },
    /// The first parent, armed, waits for signals for good.
    Parked,
    /// The middle process watches the group for good.
    Monitoring,
    /// The setup is done and control goes back to the caller.
    Finished,
    /// A step failed; nothing is handed back.
    Failed,
}

/// What the caller reports after performing an action.
#[derive(Clone, Copy, Debug, PartialEq, Eq, Structural)]
pub enum Event {
    /// The fork succeeded and this is the parent; `child` is the new process.
    Forked(i32),
    /// The fork succeeded and this is the child, whose id is given.
    InChild(i32),
    /// The action succeeded.
    Done,
    /// The action failed.
    Failed,
}

/// What the caller performs next.
#[derive(Clone, Copy, Debug, PartialEq, Eq, Structural)]
pub enum Action {
    /// Fork the process.
    Fork,
    /// Publish the target and install the quit and child-death handlers.
    Arm(Target),
    /// Publish the target without touching the handlers.
    Publish(Target),
    /// Create a new process group led by the calling process.
    NewGroup,
    /// Wait for signals forever.
    WaitForever,
    /// Become the liveness monitor of this target, never to return.
    Watch(Target),
    /// Return to the caller's code.
    Return,
    /// Give up and report the failure.
    Abort,
}

/// The setup protocol of one process: its stage and the signal it was
/// configured with.
#[derive(Clone, Copy, Debug, PartialEq, Eq, Structural)]
pub struct Daemonizer {
    pub stage: Stage,
    pub signal: TermSignal,
}

/// Whether the protocol has ended in this stage.
pub open spec fn is_final(s: Stage) -> bool {
    s is Parked || s is Monitoring || s is Finished || s is Failed
}

/// The transition on `event` from `stage`, under `signal`: the next stage and
/// the action to perform there.
pub open spec fn next(stage: Stage, signal: TermSignal, event: Event) -> (Stage, Action) {
    match (stage, event) {
        (Stage::InPlace, Event::Done) => (Stage::Finished, Action::Return),
        (Stage::Start, Event::Forked(c)) => (
            Stage::Anchor { child: c },
            Action::Arm(Target { group: c, signal }),
        ),
        (Stage::Start, Event::InChild(p)) => (
            Stage::Detached { own: p },
            Action::Publish(Target { group: p, signal: TermSignal::Terminate }),
        ),
        (Stage::Anchor { .. }, Event::Done) => (Stage::Parked, Action::WaitForever),
        (Stage::Detached { own }, Event::Done) => (Stage::Grouping { own }, Action::NewGroup),
        (Stage::Grouping { own }, Event::Done) => (Stage::Grouped { own }, Action::Fork),
        (Stage::Grouped { own }, Event::Forked(_)) => (
            Stage::Monitoring,
            Action::Watch(Target { group: own, signal }),
        ),
        (Stage::Grouped { .. }, Event::InChild(p)) => (
            Stage::Resetting { own: p },
            Action::Publish(Target { group: p, signal: TermSignal::Terminate }),
        ),
        (Stage::Resetting { .. }, Event::Done) => (Stage::Finished, Action::Return),
        _ => (Stage::Failed, Action::Abort),
    }
}

/// The stage and actions after a run of events, starting from `d`.
pub open spec fn run(d: Daemonizer, events: Seq<Event>) -> (Daemonizer, Seq<Action>)
    decreases events.len(),
{
    if events.len() == 0 {
        (d, seq![])
    } else {
        let (s, a) = next(d.stage, d.signal, events[0]);
        let (e, rest) = run(Daemonizer { stage: s, signal: d.signal }, events.drop_first());
        (e, seq![a].add(rest))
    }
}

impl Daemonizer {
    /// Starts the protocol for `run_as`, configured with `signal`, in the
    /// process `own_pid`; returns the first action to perform.
    pub fn start(run_as: RunAs, signal: TermSignal, own_pid: i32) -> (r: (Daemonizer, Action))
        ensures
            r.0.signal == signal,
            run_as == RunAs::Simple ==> r.0.stage == Stage::InPlace && r.1 == Action::Arm(
                Target { group: own_pid, signal },
            ),
            run_as == RunAs::Fork ==> r.0.stage == Stage::Start && r.1 == Action::Fork,
    {
        match run_as {
            RunAs::Simple => (
                Daemonizer { stage: Stage::InPlace, signal },
                Action::Arm(Target::new(own_pid, signal)),
            ),
            RunAs::Fork => (Daemonizer { stage: Stage::Start, signal }, Action::Fork),
        }
    }

    /// Takes the outcome of the last action and returns the next one.
    pub fn step(&mut self, event: Event) -> (r: Action)
        ensures
            final(self).signal == old(self).signal,
            (final(self).stage, r) == next(old(self).stage, old(self).signal, event),
    {
        let signal = self.signal;
        let (stage, action) = match (self.stage, event) {
            (Stage::InPlace, Event::Done) => (Stage::Finished, Action::Return),
            (Stage::Start, Event::Forked(c)) => (
                Stage::Anchor { child: c },
                Action::Arm(Target::new(c, signal)),
            ),
            (Stage::Start, Event::InChild(p)) => (
                Stage::Detached { own: p },
                Action::Publish(Target::initial(p)),
            ),
            (Stage::Anchor { .. }, Event::Done) => (Stage::Parked, Action::WaitForever),
            (Stage::Detached { own }, Event::Done) => (Stage::Grouping { own }, Action::NewGroup),
            (Stage::Grouping { own }, Event::Done) => (Stage::Grouped { own }, Action::Fork),
            (Stage::Grouped { own }, Event::Forked(_)) => (
                Stage::Monitoring,
                Action::Watch(Target::new(own, signal)),
            ),
            (Stage::Grouped { .. }, Event::InChild(p)) => (
                Stage::Resetting { own: p },
                Action::Publish(Target::initial(p)),
            ),
            (Stage::Resetting { .. }, Event::Done) => (Stage::Finished, Action::Return),
            _ => (Stage::Failed, Action::Abort),
        };
        self.stage = stage;
        action
    }

    /// Whether the protocol has ended for this process.
    pub fn is_done(&self) -> (r: bool)
        ensures
            r == is_final(self.stage),
    {
        match self.stage {
            Stage::Parked | Stage::Monitoring | Stage::Finished | Stage::Failed => true,
            _ => false,
        }
    }
}

/// A failure at any step ends the protocol with nothing handed back: there
/// is no partly set-up state.
pub proof fn lemma_failure_aborts(stage: Stage, signal: TermSignal)
    ensures
        next(stage, signal, Event::Failed) == (Stage::Failed, Action::Abort),
{
}

/// The three processes of a double fork all aim at one group. The first
/// parent arms against its child `a`; `a` leads a new group of its own and,
/// as the monitor, watches that group; the supervisor `b`, forked by `a`,
/// stays in it, resets its own target and returns to the caller.
pub proof fn lemma_double_fork_converges(signal: TermSignal, a: i32, b: i32)
    ensures
        ({
            let d = Daemonizer { stage: Stage::Start, signal };
            let anchor = run(d, seq![Event::Forked(a), Event::Done]);
            let monitor = run(d, seq![Event::InChild(a), Event::Done, Event::Done, Event::Forked(b)]);
            let supervisor = run(
                d,
                seq![Event::InChild(a), Event::Done, Event::Done, Event::InChild(b), Event::Done],
            );
            &&& anchor.1 == seq![Action::Arm(Target { group: a, signal }), Action::WaitForever]
            &&& anchor.0.stage == Stage::Parked
            &&& monitor.1 == seq![
                Action::Publish(Target { group: a, signal: TermSignal::Terminate }),
                Action::NewGroup,
                Action::Fork,
                Action::Watch(Target { group: a, signal }),
            ]
            &&& monitor.0.stage == Stage::Monitoring
            &&& supervisor.1 == seq![
                Action::Publish(Target { group: a, signal: TermSignal::Terminate }),
                Action::NewGroup,
                Action::Fork,
                Action::Publish(Target { group: b, signal: TermSignal::Terminate }),
                Action::Return,
            ]
            &&& supervisor.0.stage == Stage::Finished
        }),
{
    let d = Daemonizer { stage: Stage::Start, signal };
    reveal_with_fuel(run, 6);
    let anchor = run(d, seq![Event::Forked(a), Event::Done]);
    let monitor = run(d, seq![Event::InChild(a), Event::Done, Event::Done, Event::Forked(b)]);
    let supervisor = run(
        d,
        seq![Event::InChild(a), Event::Done, Event::Done, Event::InChild(b), Event::Done],
    );
    assert(anchor.1 =~= seq![Action::Arm(Target { group: a, signal }), Action::WaitForever]);
    assert(monitor.1 =~= seq![
        Action::Publish(Target { group: a, signal: TermSignal::Terminate }),
        Action::NewGroup,
        Action::Fork,
        Action::Watch(Target { group: a, signal }),
    ]);
    assert(supervisor.1 =~= seq![
        Action::Publish(Target { group: a, signal: TermSignal::Terminate }),
        Action::NewGroup,
        Action::Fork,
        Action::Publish(Target { group: b, signal: TermSignal::Terminate }),
        Action::Return,
    ]);
}

/// In place, once the handlers are armed the process returns to the caller.
pub proof fn lemma_in_place_returns(signal: TermSignal)
    ensures
        run(Daemonizer { stage: Stage::InPlace, signal }, seq![Event::Done]) == (
            Daemonizer { stage: Stage::Finished, signal },
            seq![Action::Return],
        ),
{
    reveal_with_fuel(run, 2);
    assert(run(Daemonizer { stage: Stage::InPlace, signal }, seq![Event::Done]).1 =~= seq![Action::Return]);
}

} // verus!
