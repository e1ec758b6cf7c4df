use vstd::prelude::*;

verus! {

/// The termination-class signals that a group may be torn down with.
#[derive(Clone, Copy, Debug, PartialEq, Eq, Structural)]
pub enum TermSignal {
    Hangup,
    Interrupt,
    Quit,
    Terminate,
}

/// The POSIX number of each termination-class signal.
pub open spec fn signum(s: TermSignal) -> int {
    match s {
        TermSignal::Hangup => 1,
        TermSignal::Interrupt => 2,
        TermSignal::Quit => 3,
        TermSignal::Terminate => 15,
    }
}

/// The signal whose POSIX number is `n`, if it is one of the four.
pub open spec fn signal_of(n: int) -> Option<TermSignal> {
    if n == 1 {
        Some(TermSignal::Hangup)
    } else if n == 2 {
        Some(TermSignal::Interrupt)
    } else if n == 3 {
        Some(TermSignal::Quit)
    } else if n == 15 {
        Some(TermSignal::Terminate)
    } else {
        None
    }
}

impl TermSignal {
    /// The signal a freshly started process targets until it is configured.
    pub fn default_signal() -> (r: TermSignal)
        ensures
            r == TermSignal::Terminate,
    {
        TermSignal::Terminate
    }

    /// The POSIX signal number.
    pub fn number(&self) -> (r: i32)
        ensures
            r as int == signum(*self),
            0 < r < 32,
    {
        match self {
            TermSignal::Hangup => 1,
            TermSignal::Interrupt => 2,
            TermSignal::Quit => 3,
            TermSignal::Terminate => 15,
        }
    }

    /// Decodes a POSIX signal number; `None` for any other number.
    pub fn from_number(n: i32) -> (r: Option<TermSignal>)
        ensures
            r == signal_of(n as int),
    {
        if n == 1 {
            Some(TermSignal::Hangup)
        } else if n == 2 {
            Some(TermSignal::Interrupt)
        } else if n == 3 {
            Some(TermSignal::Quit)
        } else if n == 15 {
            Some(TermSignal::Terminate)
        } else {
            None
        }
    }
}

/// Decoding the number of a signal gives the signal back.
pub proof fn lemma_number_round_trip(s: TermSignal)
    ensures
        signal_of(signum(s)) == Some(s),
{
}

/// A number decodes to a signal only if it is that signal's number.
pub proof fn lemma_decode_is_exact(n: int)
    ensures
        signal_of(n) matches Some(s) ==> signum(s) == n,
{
}

} // verus!
