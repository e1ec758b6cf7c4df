use caoe::signal_kind::TermSignal;
use caoe::target::{unpack_or, Target};

#[test]
fn signal_numbers_match_the_platform() {
    assert_eq!(TermSignal::Hangup.number(), libc::SIGHUP);
    assert_eq!(TermSignal::Interrupt.number(), libc::SIGINT);
    assert_eq!(TermSignal::Quit.number(), libc::SIGQUIT);
    assert_eq!(TermSignal::Terminate.number(), libc::SIGTERM);
}

#[test]
fn signal_numbers_decode_back() {
    for s in [TermSignal::Hangup, TermSignal::Interrupt, TermSignal::Quit, TermSignal::Terminate] {
        assert_eq!(TermSignal::from_number(s.number()), Some(s));
    }
    assert_eq!(TermSignal::from_number(0), None);
    assert_eq!(TermSignal::from_number(9), None);
    assert_eq!(TermSignal::from_number(-15), None);
}

#[test]
fn default_signal_is_terminate() {
    assert_eq!(TermSignal::default_signal(), TermSignal::Terminate);
    let t = Target::initial(4242);
    assert_eq!(t.group, 4242);
    assert_eq!(t.signal, TermSignal::Terminate);
}

#[test]
fn packed_word_layout() {
    let t = Target::new(0, TermSignal::Terminate);
    assert_eq!(t.pack(), 2147483648u64 * 4294967296u64 + 15);
    let t = Target::new(i32::MIN, TermSignal::Hangup);
    assert_eq!(t.pack(), 1);
    let t = Target::new(i32::MAX, TermSignal::Quit);
    assert_eq!(t.pack(), 4294967295u64 * 4294967296u64 + 3);
}

#[test]
fn pack_round_trips() {
    let groups = [0, 1, 1234, 65535, -1, i32::MIN, i32::MAX];
    let signals = [TermSignal::Hangup, TermSignal::Interrupt, TermSignal::Quit, TermSignal::Terminate];
    for g in groups {
        for s in signals {
            let t = Target::new(g, s);
            assert_eq!(Target::unpack(t.pack()), Some(t));
        }
    }
}

#[test]
fn unpack_rejects_unknown_signal_numbers() {
    assert_eq!(Target::unpack(0), None);
    assert_eq!(Target::unpack(9), None);
    assert_eq!(Target::unpack(u64::MAX), None);
    let fallback = Target::initial(77);
    assert_eq!(unpack_or(9, fallback), fallback);
    let t = Target::new(31337, TermSignal::Interrupt);
    assert_eq!(unpack_or(t.pack(), fallback), t);
}
