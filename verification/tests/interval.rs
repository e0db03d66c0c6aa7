use gta_tools::features::anti_afk::send;
use gta_tools::features::anti_afk::AntiAfk;
use gta_tools::features::anti_afk::Key;
use gta_tools::features::anti_afk::KeyInput;
use gta_tools::features::anti_afk::INTERVAL;
use gta_tools::util::clock::millis_since;
use gta_tools::util::clock::saturate;
use gta_tools::util::clock::Clock;
use gta_tools::util::interval::should_fire;

#[test]
fn gate_is_shut_below_the_interval() {
    assert!(!should_fire(1000, 500, 1000));
    assert!(!should_fire(1000, 500, 1001));
    assert!(!should_fire(1000, 500, 1499));
}

#[test]
fn gate_opens_at_the_interval() {
    assert!(should_fire(1000, 500, 1500));
    assert!(should_fire(1000, 500, 1501));
    assert!(should_fire(1000, 500, u64::MAX));
}

#[test]
fn gate_after_firing_is_shut_again() {
    let interval = 60_000;
    let mut last_fired = 0;
    let now = 60_000;
    assert!(should_fire(last_fired, interval, now));
    last_fired = now;
    assert!(!should_fire(last_fired, interval, now));
    assert!(!should_fire(last_fired, interval, now + interval - 1));
    assert!(should_fire(last_fired, interval, now + interval));
}

#[test]
fn gate_with_clock_gone_back_counts_no_time() {
    assert!(!should_fire(5000, 1, 100));
    assert!(should_fire(5000, 0, 100));
}

#[test]
fn millis_since_saturates_at_zero() {
    assert_eq!(millis_since(10, 25), 15);
    assert_eq!(millis_since(25, 25), 0);
    assert_eq!(millis_since(25, 10), 0);
    assert_eq!(millis_since(0, u64::MAX), u64::MAX);
}

#[test]
fn saturate_stops_at_the_top() {
    assert_eq!(saturate(0), 0);
    assert_eq!(saturate(123_456), 123_456);
    assert_eq!(saturate(u64::MAX as u128), u64::MAX);
    assert_eq!(saturate(u64::MAX as u128 + 1), u64::MAX);
    assert_eq!(saturate(u128::MAX), u64::MAX);
}

#[test]
fn clock_never_goes_back() {
    let mut clock = Clock::start();
    let mut last = 0;
    for _ in 0..1000 {
        let t = clock.now();
        assert!(t >= last);
        last = t;
    }
}

#[test]
fn clock_record_keeps_the_later_reading() {
    let mut clock = Clock::start();
    assert_eq!(clock.record(50), 50);
    assert_eq!(clock.record(20), 50);
    assert_eq!(clock.record(50), 50);
    assert_eq!(clock.record(51), 51);
    assert!(clock.now() >= 51);
}

#[test]
fn anti_afk_starts_switched_off() {
    let afk = AntiAfk::new(123);
    assert!(!afk.enabled);
    assert_eq!(afk.interval, 123);
    assert_eq!(INTERVAL, 60_000);
    assert!(!afk.should_activate(1_000_000));
}

#[test]
fn anti_afk_is_due_after_a_minute() {
    let mut afk = AntiAfk::new(0);
    afk.enabled = true;
    assert!(!afk.should_activate(0));
    assert!(!afk.should_activate(59_999));
    assert!(afk.should_activate(60_000));
    assert!(afk.should_activate(600_000));
}

#[test]
fn anti_afk_round_restarts_the_interval() {
    let mut afk = AntiAfk::new(0);
    afk.enabled = true;
    assert!(afk.should_activate(61_000));
    let inputs = afk.activate(61_000);
    assert_eq!(
        inputs,
        vec![
            KeyInput { key: Key::Numpad4, key_up: false },
            KeyInput { key: Key::Numpad4, key_up: true },
            KeyInput { key: Key::Numpad6, key_up: false },
            KeyInput { key: Key::Numpad6, key_up: true },
        ]
    );
    assert!(afk.enabled);
    assert_eq!(afk.interval, 61_000);
    assert!(!afk.should_activate(61_000));
    assert!(!afk.should_activate(120_999));
    assert!(afk.should_activate(121_000));
}

#[test]
fn anti_afk_needs_focus_idle_keys_and_hidden_cursor() {
    let afk = AntiAfk::new(0);
    assert!(afk.can_activate(true, false, false));
    assert!(!afk.can_activate(false, false, false));
    assert!(!afk.can_activate(true, true, false));
    assert!(!afk.can_activate(true, false, true));
    assert!(!afk.can_activate(false, true, true));
}

#[test]
fn send_presses_and_releases_each_key_in_turn() {
    assert_eq!(send(&vec![]), vec![]);
    assert_eq!(
        send(&vec![Key::Numpad6]),
        vec![
            KeyInput { key: Key::Numpad6, key_up: false },
            KeyInput { key: Key::Numpad6, key_up: true },
        ]
    );
    let inputs = send(&vec![Key::Numpad6, Key::Numpad4, Key::Numpad6]);
    assert_eq!(inputs.len(), 6);
    assert_eq!(inputs[2], KeyInput { key: Key::Numpad4, key_up: false });
    assert_eq!(inputs[5], KeyInput { key: Key::Numpad6, key_up: true });
}

#[test]
fn anti_afk_poll_sends_only_when_due_and_possible() {
    let mut afk = AntiAfk::new(0);
    afk.enabled = true;
    assert!(afk.poll(true, false, false, 59_999).is_empty());
    assert_eq!(afk.interval, 0);
    assert!(afk.poll(false, false, false, 60_000).is_empty());
    assert!(afk.poll(true, true, false, 60_000).is_empty());
    assert!(afk.poll(true, false, true, 60_000).is_empty());
    assert_eq!(afk.interval, 0);
    assert_eq!(afk.poll(true, false, false, 60_000).len(), 4);
    assert_eq!(afk.interval, 60_000);
    assert!(afk.poll(true, false, false, 60_000).is_empty());
    afk.enabled = false;
    assert!(afk.poll(true, false, false, 600_000).is_empty());
    assert_eq!(afk.interval, 60_000);
}
