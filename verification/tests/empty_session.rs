use gta_tools::features::empty_session::activate;
use gta_tools::features::empty_session::deactivate;
use gta_tools::features::empty_session::EmptySession;
use gta_tools::features::empty_session::FILTER_NAME_EMPTY_SESSION_IN;
use gta_tools::features::empty_session::FILTER_NAME_EMPTY_SESSION_OUT;
use gta_tools::features::empty_session::INTERVAL;
use gta_tools::features::empty_session::INTERVAL_SECONDS;
use gta_tools::util::firewall::RuleDirection;
use gta_tools::util::firewall::RuleMode;
use gta_tools::util::firewall::RuleProtocol;
use gta_tools::util::system_info::Process;
use gta_tools::util::system_info::SystemInfo;

#[test]
fn session_starts_at_rest() {
    let session = EmptySession::default();
    assert!(!session.disabled);
    assert_eq!(session.countdown.i, 10);
    assert_eq!(session.countdown.i_original, 10);
    assert_eq!(INTERVAL, 10_000);
    assert_eq!(INTERVAL_SECONDS, 10);
}

#[test]
fn polls_at_rest_lift_nothing() {
    let mut session = EmptySession::default();
    for t in [0u64, 5_000, 10_000, 100_000, u64::MAX] {
        assert!(!session.run_timers(t));
        assert!(!session.disabled);
        assert_eq!(session.countdown.i, 10);
        assert!(session.countdown.first_count);
    }
}

#[test]
fn block_is_lifted_once_after_ten_seconds() {
    let mut session = EmptySession::default();
    session.suspend(1_000);
    assert!(session.disabled);
    assert_eq!(session.interval, 1_000);
    let mut t = 1_100;
    while t < 11_000 {
        assert!(!session.run_timers(t));
        assert!(session.disabled);
        t += 100;
    }
    assert!(session.run_timers(11_000));
    assert!(!session.disabled);
    assert!(!session.run_timers(11_100));
    assert!(!session.run_timers(50_000));
    assert!(!session.disabled);
}

#[test]
fn block_is_lifted_by_a_late_poll() {
    let mut session = EmptySession::default();
    session.suspend(0);
    assert!(session.run_timers(10_001));
    assert!(!session.disabled);
}

#[test]
fn countdown_runs_while_blocked() {
    let mut session = EmptySession::default();
    session.suspend(0);
    session.run_timers(100);
    assert_eq!(session.countdown.i_string, "10");
    session.run_timers(1_100);
    assert_eq!(session.countdown.i_string, "9");
    session.run_timers(5_100);
    assert_eq!(session.countdown.i_string, "8");
    assert!(session.run_timers(10_000));
    assert_eq!(session.countdown.i, 7);
    assert_eq!(session.countdown.i_string, "7");
    assert!(!session.run_timers(10_100));
    assert_eq!(session.countdown.i, 10);
    assert_eq!(session.countdown.i_string, "");
}

#[test]
fn shutdown_lifts_the_block_at_any_time() {
    let mut session = EmptySession::default();
    session.suspend(1_000);
    session.run_timers(1_500);
    assert!(session.shutdown());
    assert!(!session.disabled);

    let mut session = EmptySession::default();
    assert!(session.shutdown());
    assert!(!session.disabled);
}

#[test]
fn activate_blocks_udp_both_ways() {
    let mut info = SystemInfo::default();
    info.refresh(vec![
        Process::new(1, "explorer.exe".to_string(), Some("C:\\explorer.exe".to_string())),
        Process::new(2, "GTA5_Enhanced.exe".to_string(), Some("D:\\GTA\\GTA5_Enhanced.exe".to_string())),
    ]);
    let rules = activate(&info).unwrap();
    assert_eq!(rules.len(), 2);
    assert_eq!(rules[0].name, "[GTA Tools] Block inbound UDP traffic for all of GTA V");
    assert_eq!(rules[0].direction, RuleDirection::In);
    assert_eq!(rules[0].protocol, RuleProtocol::Udp);
    assert!(matches!(&rules[0].mode, RuleMode::Executable(p) if p == "D:\\GTA\\GTA5_Enhanced.exe"));
    assert_eq!(rules[1].name, "[GTA Tools] Block outbound UDP traffic for all of GTA V");
    assert_eq!(rules[1].direction, RuleDirection::Out);
    assert_eq!(rules[1].protocol, RuleProtocol::Udp);
    assert!(matches!(&rules[1].mode, RuleMode::Executable(p) if p == "D:\\GTA\\GTA5_Enhanced.exe"));
}

#[test]
fn activate_without_game_blocks_nothing() {
    let mut info = SystemInfo::default();
    assert!(activate(&info).is_none());
    info.refresh(vec![Process::new(2, "GTA5.exe".to_string(), None)]);
    assert!(activate(&info).is_none());
}

#[test]
fn deactivate_names_both_rules() {
    assert_eq!(deactivate(), vec![FILTER_NAME_EMPTY_SESSION_IN, FILTER_NAME_EMPTY_SESSION_OUT]);
    assert_eq!(
        deactivate(),
        vec![
            "[GTA Tools] Block inbound UDP traffic for all of GTA V",
            "[GTA Tools] Block outbound UDP traffic for all of GTA V",
        ]
    );
}

#[test]
fn validity_follows_the_countdown() {
    let mut session = EmptySession::default();
    assert!(session.is_valid());
    session.countdown.i = 11;
    assert!(!session.is_valid());
}

#[test]
fn request_blocks_once_while_the_game_runs() {
    let mut info = SystemInfo::default();
    let mut session = EmptySession::default();
    assert!(session.request(&info, 100).is_none());
    assert!(!session.disabled);
    info.refresh(vec![Process::new(2, "GTA5.exe".to_string(), Some("C:\\GTA5.exe".to_string()))]);
    let rules = session.request(&info, 200).unwrap();
    assert_eq!(rules.len(), 2);
    assert!(session.disabled);
    assert_eq!(session.interval, 200);
    assert!(session.request(&info, 300).is_none());
    assert_eq!(session.interval, 200);
    assert!(session.run_timers(10_200));
    assert!(session.request(&info, 10_300).is_some());
    assert_eq!(session.interval, 10_300);
}
