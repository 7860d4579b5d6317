use app_forge_kit::service::signal::{signed_decimal_string, Signal, SignalNumbers};

fn linux_numbers() -> SignalNumbers {
    SignalNumbers { interrupt: 2, terminate: 15, user1: 10, user2: 12 }
}

#[test]
fn unknown_is_only_unknown() {
    assert!(Signal::UNKNOWN.is_unknown());
    assert!(!Signal::SIGINT.is_unknown());
    assert!(!Signal::SIGTERM.is_unknown());
    assert!(!Signal::SIGUSR_1.is_unknown());
    assert!(!Signal::SIGUSR_2.is_unknown());
}

#[test]
fn only_int_and_term_terminate() {
    assert!(Signal::SIGINT.is_terminate());
    assert!(Signal::SIGTERM.is_terminate());
    assert!(!Signal::UNKNOWN.is_terminate());
    assert!(!Signal::SIGUSR_1.is_terminate());
    assert!(!Signal::SIGUSR_2.is_terminate());
}

#[test]
fn numbers_under_a_table() {
    let t = linux_numbers();
    assert_eq!(Signal::UNKNOWN.number(&t), 0);
    assert_eq!(Signal::SIGINT.number(&t), 2);
    assert_eq!(Signal::SIGTERM.number(&t), 15);
    assert_eq!(Signal::SIGUSR_1.number(&t), 10);
    assert_eq!(Signal::SIGUSR_2.number(&t), 12);
}

#[test]
fn signals_from_numbers() {
    let t = linux_numbers();
    assert_eq!(Signal::from_number(2, &t), Signal::SIGINT);
    assert_eq!(Signal::from_number(15, &t), Signal::SIGTERM);
    assert_eq!(Signal::from_number(10, &t), Signal::SIGUSR_1);
    assert_eq!(Signal::from_number(12, &t), Signal::SIGUSR_2);
    assert_eq!(Signal::from_number(0, &t), Signal::UNKNOWN);
    assert_eq!(Signal::from_number(9, &t), Signal::UNKNOWN);
    assert_eq!(Signal::from_number(-2, &t), Signal::UNKNOWN);
}

#[test]
fn number_round_trip_on_every_signal() {
    let t = linux_numbers();
    for s in [Signal::UNKNOWN, Signal::SIGINT, Signal::SIGTERM, Signal::SIGUSR_1, Signal::SIGUSR_2] {
        assert_eq!(Signal::from_number(s.number(&t), &t), s);
        assert_eq!(Signal::from_usize_number(s.number_as_usize(&t), &t), s);
    }
}

#[test]
fn usize_is_cut_to_c_int() {
    let t = linux_numbers();
    // 2^32 + 15 is 15 once cut to 32 bits
    assert_eq!(Signal::from_usize_number((1usize << 32) + 15, &t), Signal::SIGTERM);
}

#[test]
fn platform_numbers_are_libc_ones() {
    let t = SignalNumbers::platform();
    assert_eq!(t.interrupt, signal_hook::consts::SIGINT);
    assert_eq!(t.terminate, signal_hook::consts::SIGTERM);
    assert_eq!(t.user1, signal_hook::consts::SIGUSR1);
    assert_eq!(t.user2, signal_hook::consts::SIGUSR2);
    assert_eq!(t.interrupt, 2);
    assert_eq!(t.terminate, 15);
}

#[test]
fn platform_conversions_round_trip() {
    for s in [Signal::UNKNOWN, Signal::SIGINT, Signal::SIGTERM, Signal::SIGUSR_1, Signal::SIGUSR_2] {
        assert_eq!(Signal::from_c_int(s.to_c_int()), s);
        assert_eq!(Signal::from_usize(s.to_usize()), s);
    }
    assert_eq!(Signal::SIGINT.to_c_int(), 2);
    assert_eq!(Signal::SIGTERM.to_usize(), 15);
    assert_eq!(Signal::from_c_int(signal_hook::consts::SIGUSR1), Signal::SIGUSR_1);
}

#[test]
fn description_shows_the_number() {
    let t = linux_numbers();
    assert_eq!(Signal::SIGINT.description(&t), "signal: 2");
    assert_eq!(Signal::SIGTERM.description(&t), "signal: 15");
    assert_eq!(Signal::UNKNOWN.description(&t), "signal: 0");
    assert_eq!(Signal::SIGTERM.to_string(), "signal: 15");
}

#[test]
fn decimal_numerals() {
    assert_eq!(signed_decimal_string(0), "0");
    assert_eq!(signed_decimal_string(7), "7");
    assert_eq!(signed_decimal_string(1234567), "1234567");
    assert_eq!(signed_decimal_string(-45), "-45");
    assert_eq!(signed_decimal_string(i32::MAX), "2147483647");
    assert_eq!(signed_decimal_string(i32::MIN), "-2147483648");
}
