use gta_tools::features::force_close::activate;
use gta_tools::features::force_close::ForceClose;
use gta_tools::features::force_close::BUTTON_TEXT;
use gta_tools::features::force_close::BUTTON_TEXT_ARMED;
use gta_tools::features::force_close::INTERVAL;
use gta_tools::util::system_info::Process;
use gta_tools::util::system_info::SystemInfo;

#[test]
fn new_gate_is_idle() {
    let gate = ForceClose::default();
    assert!(!gate.counting());
    assert_eq!(gate.button_text, "Force close game");
    assert_eq!(BUTTON_TEXT, "Force close game");
    assert_eq!(BUTTON_TEXT_ARMED, "Are you sure?");
    assert_eq!(INTERVAL, 3000);
}

#[test]
fn idle_gate_ignores_polls_without_click() {
    let mut gate = ForceClose::default();
    for t in 0..50u64 {
        assert!(!gate.prompt(false, t * 100));
        assert!(!gate.counting());
        assert_eq!(gate.button_text, "Force close game");
    }
}

#[test]
fn first_click_arms_without_firing() {
    let mut gate = ForceClose::default();
    assert!(!gate.prompt(true, 1000));
    assert!(gate.counting());
    assert_eq!(gate.button_text, "Are you sure?");
}

#[test]
fn second_click_in_a_later_poll_fires_once() {
    let mut gate = ForceClose::default();
    assert!(!gate.prompt(true, 1000));
    assert!(!gate.prompt(false, 1100));
    assert!(gate.counting());
    assert!(gate.prompt(true, 1200));
    assert!(!gate.counting());
    assert_eq!(gate.button_text, "Force close game");
    assert!(!gate.prompt(false, 1300));
    assert!(!gate.counting());
}

#[test]
fn click_held_over_two_polls_confirms_in_the_second() {
    let mut gate = ForceClose::default();
    assert!(!gate.prompt(true, 0));
    assert!(gate.prompt(true, 0));
    assert!(!gate.counting());
}

#[test]
fn confirm_at_two_seconds_fires() {
    let mut gate = ForceClose::default();
    assert!(!gate.prompt(true, 0));
    assert!(gate.prompt(true, 2000));
    assert!(!gate.counting());
}

#[test]
fn confirm_at_four_seconds_does_not_fire() {
    let mut gate = ForceClose::default();
    assert!(!gate.prompt(true, 0));
    assert!(!gate.prompt(true, 4000));
    assert!(!gate.counting());
    assert_eq!(gate.button_text, "Force close game");
}

#[test]
fn window_ends_at_three_seconds_exactly() {
    let mut gate = ForceClose::default();
    assert!(!gate.prompt(true, 500));
    assert!(gate.prompt(true, 3499));

    let mut gate = ForceClose::default();
    assert!(!gate.prompt(true, 500));
    assert!(!gate.prompt(true, 3500));
    assert!(!gate.counting());
}

#[test]
fn armed_gate_left_alone_disarms_itself() {
    let mut gate = ForceClose::default();
    assert!(!gate.prompt(true, 0));
    let mut t = 100;
    while t < 3000 {
        assert!(!gate.prompt(false, t));
        assert!(gate.counting());
        t += 100;
    }
    assert!(!gate.prompt(false, 3000));
    assert!(!gate.counting());
    assert_eq!(gate.button_text, "Force close game");
}

#[test]
fn click_after_timeout_arms_again_in_the_next_poll_only() {
    let mut gate = ForceClose::default();
    assert!(!gate.prompt(true, 0));
    assert!(!gate.prompt(true, 5000));
    assert!(!gate.counting());
    assert!(!gate.prompt(true, 5100));
    assert!(gate.counting());
    assert!(gate.prompt(true, 5200));
}

#[test]
fn clock_going_back_keeps_it_armed() {
    let mut gate = ForceClose::default();
    assert!(!gate.prompt(true, 10_000));
    assert!(!gate.prompt(false, 1_000));
    assert!(gate.counting());
    assert!(gate.prompt(true, 2_000));
}

#[test]
fn reset_returns_to_idle() {
    let mut gate = ForceClose::default();
    gate.prompt(true, 0);
    gate.reset();
    assert!(!gate.counting());
    assert_eq!(gate.button_text, "Force close game");
    gate.finish_current_frame();
    assert!(!gate.counting());
}

#[test]
fn activate_picks_every_game_process() {
    let mut info = SystemInfo::default();
    info.refresh(vec![
        Process::new(4, "System".to_string(), None),
        Process::new(100, "GTA5.exe".to_string(), Some("C:\\Games\\GTA5.exe".to_string())),
        Process::new(200, "explorer.exe".to_string(), None),
        Process::new(300, "GTA5_Enhanced.exe".to_string(), None),
        Process::new(400, "gta5.exe".to_string(), None),
    ]);
    assert_eq!(activate(&info), vec![100, 300]);
}

#[test]
fn activate_without_game_picks_nothing() {
    let mut info = SystemInfo::default();
    assert_eq!(activate(&info), Vec::<u32>::new());
    info.refresh(vec![Process::new(1, "notepad.exe".to_string(), None)]);
    assert_eq!(activate(&info), Vec::<u32>::new());
}
