use fitgirl_ecoqos::config::Config;
use fitgirl_ecoqos::error::Error;
use fitgirl_ecoqos::matcher::Matcher;
use fitgirl_ecoqos::monitor::{ListenEvent, Monitor, MonitorAction, Process};

fn created(id: u32, name: &str) -> ListenEvent {
    ListenEvent::Created(Process { process_id: id, name: name.to_string() })
}

fn monitor(exact: &[&str], patterns: &[&str]) -> Monitor {
    let exact = exact.iter().map(|s| s.to_string()).collect();
    let patterns: Vec<String> = patterns.iter().map(|s| s.to_string()).collect();
    Monitor::new(Matcher::new(exact, &patterns).unwrap())
}

#[test]
fn listed_process_is_throttled() {
    let mut m = monitor(&["helper.exe"], &[]);
    assert_eq!(m.on_event(created(4242, "helper.exe")), MonitorAction::Throttle(4242));
}

#[test]
fn unlisted_process_is_left_alone() {
    let mut m = monitor(&["helper.exe"], &[]);
    assert_eq!(m.on_event(created(77, "other.exe")), MonitorAction::Skip);
    assert!(!m.is_stopped());
}

#[test]
fn pattern_listed_process_is_throttled() {
    let mut m = monitor(&[], &["^tmp.*\\.exe$"]);
    assert_eq!(m.on_event(created(9, "tmp123.exe")), MonitorAction::Throttle(9));
    assert_eq!(m.on_event(created(10, "tmp123.dll")), MonitorAction::Skip);
}

#[test]
fn connection_loss_stops_the_loop() {
    let mut m = monitor(&["helper.exe"], &[]);
    assert_eq!(m.on_event(created(1, "helper.exe")), MonitorAction::Throttle(1));
    assert_eq!(m.on_event(ListenEvent::ConnectionLost), MonitorAction::Stop(Err(Error::ListenerConnection)));
    assert!(m.is_stopped());
    assert_eq!(m.on_event(created(2, "helper.exe")), MonitorAction::Skip);
    assert_eq!(m.on_event(ListenEvent::DecodeFailed), MonitorAction::Skip);
}

#[test]
fn decode_failure_is_reported_and_skipped() {
    let mut m = monitor(&["helper.exe"], &[]);
    assert_eq!(m.on_event(ListenEvent::DecodeFailed), MonitorAction::ReportDecodeError);
    assert!(!m.is_stopped());
    assert_eq!(m.on_event(created(3, "helper.exe")), MonitorAction::Throttle(3));
}

#[test]
fn end_of_subscription_stops_cleanly() {
    let mut m = monitor(&["helper.exe"], &[]);
    assert_eq!(m.on_event(ListenEvent::Closed), MonitorAction::Stop(Ok(())));
    assert!(m.is_stopped());
    assert_eq!(m.on_event(created(3, "helper.exe")), MonitorAction::Skip);
}

#[test]
fn monitor_from_default_config() {
    let mut m = Monitor::from_config(Config::default()).unwrap();
    assert_eq!(m.on_event(created(5, "xtool.exe")), MonitorAction::Throttle(5));
    assert_eq!(m.on_event(created(6, "notepad.exe")), MonitorAction::Skip);
}

#[test]
fn monitor_from_config_with_bad_pattern() {
    let config = Config { blacklist: vec!["a.exe".to_string()], blacklist_regex: vec!["[".to_string()] };
    assert!(matches!(Monitor::from_config(config), Err(Error::InvalidPattern)));
}
