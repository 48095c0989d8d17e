use pot::clipboard::ClipboardFault;
use pot::monitor::{ClipboardMonitor, ClipboardMonitorEnableWrapper, FlagCheck, POLL_INTERVAL_MS};

fn poll(
    monitor: &mut ClipboardMonitor,
    flag: Option<&ClipboardMonitorEnableWrapper>,
    clipboard: Result<String, ClipboardFault>,
) -> Option<String> {
    match monitor.check_flag(flag) {
        FlagCheck::ReadClipboard => monitor.observe_clipboard(clipboard),
        _ => None,
    }
}

fn run_enabled(writes: &[&str]) -> Vec<String> {
    let flag = ClipboardMonitorEnableWrapper::from_setting(true);
    let mut monitor = ClipboardMonitor::new();
    let mut sent = Vec::new();
    for w in writes {
        if let Some(t) = poll(&mut monitor, Some(&flag), Ok(w.to_string())) {
            sent.push(t);
        }
    }
    sent
}

#[test]
fn scenario_empty_hello_hello_world() {
    let sent = run_enabled(&["", "hello", "hello", "world"]);
    assert_eq!(sent, vec!["hello".to_string(), "world".to_string()]);
}

#[test]
fn distinct_writes_forwarded_in_order() {
    let sent = run_enabled(&["a", "b", "a", "c"]);
    assert_eq!(sent, vec!["a", "b", "a", "c"]);
}

#[test]
fn repeated_write_forwarded_once() {
    let sent = run_enabled(&["x", "x", "x", "y", "y"]);
    assert_eq!(sent, vec!["x", "y"]);
}

#[test]
fn disabled_flag_stops_for_good() {
    let on = ClipboardMonitorEnableWrapper::from_setting(true);
    let off = ClipboardMonitorEnableWrapper::from_setting(false);
    let mut monitor = ClipboardMonitor::new();
    assert_eq!(poll(&mut monitor, Some(&on), Ok("one".to_string())), Some("one".to_string()));
    assert_eq!(monitor.check_flag(Some(&off)), FlagCheck::Stop);
    assert!(!monitor.is_running());
    assert_eq!(monitor.check_flag(Some(&on)), FlagCheck::Stop);
    assert_eq!(monitor.observe_clipboard(Ok("two".to_string())), None);
    assert_eq!(monitor.last_seen().as_str(), "one");
}

#[test]
fn fresh_monitor_resumes_after_stop() {
    let on = ClipboardMonitorEnableWrapper::from_setting(true);
    let off = ClipboardMonitorEnableWrapper::from_setting(false);
    let mut first = ClipboardMonitor::new();
    assert_eq!(first.check_flag(Some(&off)), FlagCheck::Stop);
    let mut second = ClipboardMonitor::new();
    assert!(second.is_running());
    assert_eq!(second.last_seen().as_str(), "");
    assert_eq!(poll(&mut second, Some(&on), Ok("one".to_string())), Some("one".to_string()));
}

#[test]
fn contended_flag_skips_poll() {
    let on = ClipboardMonitorEnableWrapper::from_setting(true);
    let mut monitor = ClipboardMonitor::new();
    assert_eq!(monitor.check_flag(None), FlagCheck::Skip);
    assert!(monitor.is_running());
    assert_eq!(poll(&mut monitor, Some(&on), Ok("t".to_string())), Some("t".to_string()));
}

#[test]
fn failed_read_counts_as_no_content() {
    let on = ClipboardMonitorEnableWrapper::from_setting(true);
    let mut monitor = ClipboardMonitor::new();
    assert_eq!(poll(&mut monitor, Some(&on), Ok("a".to_string())), Some("a".to_string()));
    assert_eq!(poll(&mut monitor, Some(&on), Err(ClipboardFault::ContentNotAvailable)), None);
    assert_eq!(
        poll(&mut monitor, Some(&on), Err(ClipboardFault::Unknown("x".to_string()))),
        None
    );
    assert_eq!(poll(&mut monitor, Some(&on), Ok("a".to_string())), None);
    assert!(monitor.is_running());
}

#[test]
fn empty_text_after_other_text_is_forwarded() {
    let sent = run_enabled(&["a", ""]);
    assert_eq!(sent, vec!["a", ""]);
}

#[test]
fn flag_text_of_setting() {
    assert_eq!(ClipboardMonitorEnableWrapper::from_setting(true).0, "true");
    assert_eq!(ClipboardMonitorEnableWrapper::from_setting(false).0, "false");
}

#[test]
fn flag_enabled_when_text_contains_true() {
    assert!(ClipboardMonitorEnableWrapper("true".to_string()).is_enabled());
    assert!(ClipboardMonitorEnableWrapper("is true!".to_string()).is_enabled());
    assert!(!ClipboardMonitorEnableWrapper("false".to_string()).is_enabled());
    assert!(!ClipboardMonitorEnableWrapper("tru".to_string()).is_enabled());
    assert!(!ClipboardMonitorEnableWrapper("TRUE".to_string()).is_enabled());
    assert!(!ClipboardMonitorEnableWrapper(String::new()).is_enabled());
}

#[test]
fn poll_interval_is_half_a_second() {
    assert_eq!(POLL_INTERVAL_MS, 500);
}
