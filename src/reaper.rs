use vstd::prelude::*;

verus! {

/// What one non-blocking wait for any child reported.
#[derive(Clone, Copy, Debug, PartialEq, Eq, Structural)]
pub enum WaitOutcome {
    /// A child exited normally with this exit status.
    Exited(i32),
    /// A child terminated without an exit status (it was killed by a signal).
    Killed,
    /// Children remain, but none has terminated yet.
    Pending,
    /// There is no child left to wait for, or the wait failed.
    Exhausted,
}

/// The low byte of a wait status, the part a process exit code can carry.
pub open spec fn low_byte(status: int) -> int {
    status % 256
}

/// Whether the outcome reaped a child, so that another wait may reap more.
pub open spec fn reaped(o: WaitOutcome) -> bool {
    o is Exited || o is Killed
}

/// The exit code that a reaped child hands on: the low byte of its exit
/// status, or 0 where no status is available.
pub open spec fn code_of(o: WaitOutcome) -> int {
    match o {
        WaitOutcome::Exited(s) => low_byte(s as int),
        _ => 0,
    }
}

/// Collects the children reaped after a child-death notification. The
/// notifications of several deaths may arrive as one, so the caller waits
/// again as long as a wait reaps a child; the code of the first reaped child
/// is the one handed on.
#[derive(Clone, Copy, Debug, PartialEq, Eq, Structural)]
pub struct Reaper {
    pub first_code: Option<i32>,
}

/// The reaper after one more wait outcome.
pub open spec fn after(r: Reaper, o: WaitOutcome) -> Reaper {
    if r.first_code is None && reaped(o) {
        Reaper { first_code: Some(code_of(o) as i32) }
    } else {
        r
    }
}

/// The reaper after a run of wait outcomes, in order.
pub open spec fn after_all(r: Reaper, os: Seq<WaitOutcome>) -> Reaper
    decreases os.len(),
{
    if os.len() == 0 {
        r
    } else {
        after_all(after(r, os[0]), os.drop_first())
    }
}

/// The exit code the reaper hands on.
pub open spec fn final_code(r: Reaper) -> int {
    match r.first_code {
        Some(c) => c as int,
        None => 0,
    }
}

/// The exit code carried by the low byte of `status`.
pub fn exit_code_of(status: i32) -> (r: i32)
    ensures
        r as int == low_byte(status as int),
        0 <= r < 256,
{
    let m: i32 = status % 256;
    if m < 0 {
        m + 256
    } else {
        m
    }
}

impl Reaper {
    /// A reaper that has reaped nothing yet.
    pub fn new() -> (r: Reaper)
        ensures
            r.first_code is None,
    {
        Reaper { first_code: None }
    }

    /// Records one wait outcome; returns whether to wait again.
    pub fn observe(&mut self, outcome: WaitOutcome) -> (again: bool)
        ensures
            *final(self) == after(*old(self), outcome),
            again == reaped(outcome),
    {
        match outcome {
            WaitOutcome::Exited(status) => {
                if self.first_code.is_none() {
                    self.first_code = Some(exit_code_of(status));
                }
                true
            },
            WaitOutcome::Killed => {
                if self.first_code.is_none() {
                    self.first_code = Some(0);
                }
                true
            },
            WaitOutcome::Pending => false,
            WaitOutcome::Exhausted => false,
        }
    }

    /// The exit code to leave with: that of the first reaped child, or 0.
    pub fn exit_code(&self) -> (r: i32)
        ensures
            r as int == final_code(*self),
    {
        match self.first_code {
            Some(c) => c,
            None => 0,
        }
    }
}

/// Once a code is recorded, later outcomes leave it as it is.
pub proof fn lemma_first_code_stays(r: Reaper, os: Seq<WaitOutcome>)
    requires
        r.first_code is Some,
    ensures
        after_all(r, os) == r,
    decreases os.len(),
{
    if os.len() > 0 {
        lemma_first_code_stays(after(r, os[0]), os.drop_first());
    }
}

/// When the first wait after a child-death notification reaps a child that
/// exited with `status`, the code handed on is the low byte of that status,
/// whatever the later waits report.
pub proof fn lemma_exit_code_mirrors_first_child(os: Seq<WaitOutcome>, status: i32)
    requires
        os.len() > 0,
        os[0] == WaitOutcome::Exited(status),
    ensures
        final_code(after_all(Reaper { first_code: None }, os)) == low_byte(status as int),
{
    let r1 = after(Reaper { first_code: None }, os[0]);
    lemma_first_code_stays(r1, os.drop_first());
}

} // verus!
