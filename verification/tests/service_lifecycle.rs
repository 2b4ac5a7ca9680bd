use osc_clock::log::{print_log, LogEntry, LogType};
use osc_clock::service::{ServiceError, ServiceState};

#[test]
fn start_twice_reports_already_running_with_one_task() {
    let mut s = ServiceState::new();
    assert!(!s.is_running());
    assert_eq!(s.start(), Ok(()));
    assert!(s.is_running());
    assert!(s.has_task);
    assert_eq!(s.start(), Err(ServiceError::AlreadyRunning));
    // Exactly one background task is active after the refused second start.
    assert!(s.is_running());
    assert!(s.has_task);
}

#[test]
fn stop_without_start_reports_not_running() {
    let mut s = ServiceState::new();
    assert_eq!(s.stop(), Err(ServiceError::NotRunning));
    assert!(!s.is_running());
}

#[test]
fn start_stop_start_cycles_cleanly() {
    let mut s = ServiceState::new();
    assert_eq!(s.start(), Ok(()));
    assert_eq!(s.stop(), Ok(()));
    assert!(!s.is_running());
    assert!(!s.has_task);
    assert_eq!(s.start(), Ok(()));
    assert!(s.is_running());
}

#[test]
fn log_type_names() {
    assert_eq!(LogType::INFO.as_str(), "INFO");
    assert_eq!(LogType::WARN.as_str(), "WARN");
    assert_eq!(LogType::ERROR.as_str(), "ERROR");
    assert_eq!(LogType::EVENT.as_str(), "EVENT");
    assert_eq!(LogType::SEND.as_str(), "SEND");
}

#[test]
fn print_log_formats_a_colored_line() {
    assert_eq!(print_log("hello".to_string(), LogType::INFO), "[\x1b[36mINFO\x1b[m]\thello\n");
    assert_eq!(print_log("careful".to_string(), LogType::WARN), "[\x1b[33mWARN\x1b[m]\tcareful\n");
    assert_eq!(print_log("broken".to_string(), LogType::ERROR), "[\x1b[31mERROR\x1b[m]\tbroken\n");
}

#[test]
fn log_entries_carry_their_fields() {
    let e = LogEntry {
        message: "m".to_string(),
        log_type: LogType::EVENT,
        timestamp: "2026-10-12 13:34:56".to_string(),
    };
    assert_eq!(e.message, "m");
    assert_eq!(e.log_type.as_str(), "EVENT");
    assert_eq!(e.timestamp, "2026-10-12 13:34:56");
}

#[test]
fn asset_paths_are_workspace_relative() {
    assert_eq!(osc_clock::get_assets_path(), "assets");
    assert_eq!(osc_clock::get_icons_path(), "assets/icons");
}
