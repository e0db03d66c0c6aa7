use gta_tools::util::decimal::to_decimal;
use gta_tools::util::countdown::Countdown;

#[test]
fn new_countdown_is_untouched() {
    let c = Countdown::new(10);
    assert_eq!(c.i, 10);
    assert_eq!(c.i_original, 10);
    assert_eq!(c.i_string, "");
    assert!(c.first_count);
}

#[test]
fn first_poll_only_sets_the_anchor() {
    let mut c = Countdown::new(10);
    c.count(5_000);
    assert_eq!(c.i, 10);
    assert_eq!(c.i_string, "10");
    assert_eq!(c.interval, 5_000);
    assert!(!c.first_count);
}

#[test]
fn ten_polls_a_second_apart_run_through_one_cycle() {
    let mut c = Countdown::new(10);
    c.count(0);
    let mut seen = Vec::new();
    for second in 1..=10u64 {
        c.count(second * 1000);
        seen.push(c.i);
    }
    assert_eq!(seen, vec![9, 8, 7, 6, 5, 4, 3, 2, 1, 10]);
    assert!(c.first_count);
    assert_eq!(c.i_string, "");
}

#[test]
fn display_follows_the_ticks_left() {
    let mut c = Countdown::new(3);
    c.count(0);
    assert_eq!(c.i_string, "3");
    c.count(1000);
    assert_eq!(c.i_string, "2");
    c.count(2000);
    assert_eq!(c.i_string, "1");
    c.count(3000);
    assert_eq!(c.i_string, "");
    assert_eq!(c.i, 3);
}

#[test]
fn full_cycle_returns_to_original_for_several_sizes() {
    for original in 1..=25u64 {
        let mut c = Countdown::new(original);
        c.count(7);
        for k in 1..=original {
            assert!(c.i <= original);
            c.count(7 + k * 1500);
        }
        assert_eq!(c.i, original);
    }
}

#[test]
fn polls_within_the_same_second_change_nothing() {
    let mut c = Countdown::new(10);
    c.count(0);
    c.count(1000);
    assert_eq!(c.i, 9);
    for _ in 0..100 {
        c.count(1000);
        assert_eq!(c.i, 9);
    }
    c.count(1999);
    assert_eq!(c.i, 9);
    c.count(2000);
    assert_eq!(c.i, 8);
}

#[test]
fn tick_needs_a_full_second() {
    let mut c = Countdown::new(5);
    c.count(100);
    c.count(1099);
    assert_eq!(c.i, 5);
    c.count(1100);
    assert_eq!(c.i, 4);
    assert_eq!(c.interval, 1100);
}

#[test]
fn clock_going_back_takes_no_tick() {
    let mut c = Countdown::new(5);
    c.count(10_000);
    c.count(2_000);
    assert_eq!(c.i, 5);
    assert_eq!(c.interval, 10_000);
}

#[test]
fn late_poll_takes_one_tick_only() {
    let mut c = Countdown::new(5);
    c.count(0);
    c.count(60_000);
    assert_eq!(c.i, 4);
}

#[test]
fn countdown_of_zero_stays_untouched() {
    let mut c = Countdown::new(0);
    c.count(0);
    assert_eq!(c.i, 0);
    assert!(c.first_count);
    assert_eq!(c.i_string, "");
    c.count(5000);
    assert_eq!(c.i, 0);
    assert!(c.first_count);
}

#[test]
fn countdown_of_one_rolls_over_on_its_tick() {
    let mut c = Countdown::new(1);
    c.count(0);
    assert_eq!(c.i, 1);
    assert_eq!(c.i_string, "1");
    c.count(1000);
    assert_eq!(c.i, 1);
    assert!(c.first_count);
}

#[test]
fn reset_puts_back_the_full_value() {
    let mut c = Countdown::new(10);
    c.count(0);
    c.count(1000);
    c.count(2000);
    assert_eq!(c.i, 8);
    c.reset();
    assert_eq!(c.i, 10);
    assert_eq!(c.i_original, 10);
    assert_eq!(c.i_string, "");
    assert_eq!(c.interval, 0);
    assert!(c.first_count);
}

#[test]
fn poll_after_reset_starts_a_new_run() {
    let mut c = Countdown::new(4);
    c.count(0);
    c.count(1000);
    c.reset();
    c.count(1500);
    assert_eq!(c.i, 4);
    c.count(2499);
    assert_eq!(c.i, 4);
    c.count(2500);
    assert_eq!(c.i, 3);
}

#[test]
fn decimal_numerals() {
    assert_eq!(to_decimal(0), "0");
    assert_eq!(to_decimal(7), "7");
    assert_eq!(to_decimal(10), "10");
    assert_eq!(to_decimal(109), "109");
    assert_eq!(to_decimal(1234567890), "1234567890");
    assert_eq!(to_decimal(u64::MAX), "18446744073709551615");
    for n in 0..2000u64 {
        assert_eq!(to_decimal(n), n.to_string());
    }
}

#[test]
fn validity_of_hand_made_countdowns() {
    let mut c = Countdown::new(5);
    assert!(c.is_valid());
    c.count(0);
    c.count(1000);
    assert!(c.is_valid());
    c.i = 6;
    assert!(!c.is_valid());
    c.i = 0;
    assert!(!c.is_valid());
    let mut zero = Countdown::new(0);
    assert!(zero.is_valid());
    zero.first_count = false;
    assert!(!zero.is_valid());
}
