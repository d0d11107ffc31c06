use std::sync::atomic::{AtomicUsize, Ordering};

use proc_supervisor::signal::{
    decide_signal, handler, interrupt_received, is_interrupted, SignalAction, FLAG_INT_RECEIVED,
    FORCED_EXIT_CODE,
};

#[test]
fn the_first_interrupt_asks_for_a_shutdown_and_the_second_forces_the_exit() {
    let flags = AtomicUsize::new(0);
    assert!(!interrupt_received(&flags));
    assert_eq!(handler(&flags, libc::SIGINT), SignalAction::Shutdown);
    assert!(interrupt_received(&flags));
    assert_eq!(flags.load(Ordering::SeqCst), FLAG_INT_RECEIVED);
    assert_eq!(handler(&flags, libc::SIGINT), SignalAction::ForceExit { code: 1 });
    assert_eq!(handler(&flags, libc::SIGINT), SignalAction::ForceExit { code: FORCED_EXIT_CODE });
    assert!(interrupt_received(&flags));
}

#[test]
fn other_signals_leave_the_flags_alone() {
    let flags = AtomicUsize::new(0);
    for signal in [libc::SIGTERM, libc::SIGHUP, libc::SIGCHLD, 0, -1] {
        assert_eq!(handler(&flags, signal), SignalAction::Ignore);
    }
    assert_eq!(flags.load(Ordering::SeqCst), 0);
    assert!(!interrupt_received(&flags));
}

#[test]
fn the_handler_keeps_the_other_flags() {
    let flags = AtomicUsize::new(6);
    assert_eq!(handler(&flags, libc::SIGINT), SignalAction::Shutdown);
    assert_eq!(flags.load(Ordering::SeqCst), 7);
}

#[test]
fn the_decision_goes_by_the_flag_that_was_set_before() {
    assert_eq!(decide_signal(libc::SIGINT, 0), SignalAction::Shutdown);
    assert_eq!(decide_signal(libc::SIGINT, 2), SignalAction::Shutdown);
    assert_eq!(decide_signal(libc::SIGINT, 1), SignalAction::ForceExit { code: 1 });
    assert_eq!(decide_signal(libc::SIGINT, 3), SignalAction::ForceExit { code: 1 });
    assert_eq!(decide_signal(libc::SIGTERM, 1), SignalAction::Ignore);
    assert_eq!(decide_signal(2, 0), SignalAction::Shutdown);
}

#[test]
fn only_the_lowest_bit_says_interrupted() {
    assert!(!is_interrupted(0));
    assert!(is_interrupted(1));
    assert!(!is_interrupted(2));
    assert!(is_interrupted(usize::MAX));
}
