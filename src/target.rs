use vstd::prelude::*;
use vstd::arithmetic::div_mod::lemma_fundamental_div_mod_converse;

use crate::signal_kind::{signal_of, signum, TermSignal};

verus! {

/// Offset that maps every `i32` group id onto `0 .. 2^32`.
pub const GROUP_OFFSET: i64 = 2147483648;

/// Width of the slot that holds one half of a packed word.
pub const HALF: u64 = 4294967296;

/// What a teardown is aimed at: the process group that receives the broadcast
/// and the signal that is broadcast to it.
#[derive(Clone, Copy, Debug, PartialEq, Eq, Structural)]
pub struct Target {
    pub group: i32,
    pub signal: TermSignal,
}

/// The word that holds a target: the shifted group in the high half and the
/// signal number in the low half.
pub open spec fn encode(t: Target) -> int {
    (t.group as int + GROUP_OFFSET as int) * HALF as int + signum(t.signal)
}

/// The target that a word holds, if its low half is a known signal number.
pub open spec fn decode(w: int) -> Option<Target> {
    match signal_of(w % HALF as int) {
        Some(s) => Some(Target { group: (w / HALF as int - GROUP_OFFSET as int) as i32, signal: s }),
        None => None,
    }
}

impl Target {
    /// The target a process starts with: its own id as the group, and the
    /// default signal.
    pub fn initial(own_pid: i32) -> (r: Target)
        ensures
            r.group == own_pid,
            r.signal == TermSignal::Terminate,
    {
        Target { group: own_pid, signal: TermSignal::default_signal() }
    }

    /// A target for `group` with `signal`.
    pub fn new(group: i32, signal: TermSignal) -> (r: Target)
        ensures
            r.group == group,
            r.signal == signal,
    {
        Target { group, signal }
    }

    /// Packs the pair into one word, so that a single atomic store publishes
    /// both halves together.
    pub fn pack(&self) -> (r: u64)
        ensures
            r as int == encode(*self),
    {
        let hi: u64 = (self.group as i64 + GROUP_OFFSET) as u64;
        let lo: u64 = self.signal.number() as u64;
        assert(hi * HALF <= (HALF - 1) * HALF) by (nonlinear_arith)
            requires
                hi < HALF,
        ;
        hi * HALF + lo
    }

    /// Reads a packed word back; `None` if its low half is no known signal.
    pub fn unpack(word: u64) -> (r: Option<Target>)
        ensures
            r == decode(word as int),
    {
        let hi: u64 = word / HALF;
        let lo: u64 = word % HALF;
        let signal = if lo < 32 {
            TermSignal::from_number(lo as i32)
        } else {
            None
        };
        match signal {
            Some(s) => {
                let group: i64 = hi as i64 - GROUP_OFFSET;
                Some(Target { group: group as i32, signal: s })
            },
            None => None,
        }
    }
}

/// The target that `word` holds, or `fallback` where it holds none.
pub fn unpack_or(word: u64, fallback: Target) -> (r: Target)
    ensures
        decode(word as int) matches Some(t) ==> r == t,
        decode(word as int) is None ==> r == fallback,
{
    match Target::unpack(word) {
        Some(t) => t,
        None => fallback,
    }
}

/// Reading a packed word gives back the very pair that was packed: a reader
/// never sees the group of one target with the signal of another.
pub proof fn lemma_pack_round_trip(t: Target)
    ensures
        decode(encode(t)) == Some(t),
{
    let q = t.group as int + GROUP_OFFSET as int;
    let r = signum(t.signal);
    lemma_fundamental_div_mod_converse(encode(t), HALF as int, q, r);
}

/// Two targets that pack to the same word are the same target.
pub proof fn lemma_pack_injective(a: Target, b: Target)
    requires
        encode(a) == encode(b),
    ensures
        a == b,
{
    lemma_pack_round_trip(a);
    lemma_pack_round_trip(b);
}

} // verus!
