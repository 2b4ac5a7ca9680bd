use osc_clock::config::{
    config_to_json, get_fallback_config, load_plan, read_config_text, repair, startup_warnings,
    Config, ConfigStatus, LoadAction, Warning,
};
use osc_clock::json::json_to_string;

fn strip_status(mut c: Config) -> Config {
    c.config_status = ConfigStatus::Fallback;
    c
}

#[test]
fn missing_file_reads_as_missing_defaults() {
    let c = read_config_text(None, true);
    assert_eq!(c.config_status, ConfigStatus::Missing);
    assert_eq!(strip_status(c), get_fallback_config());
}

#[test]
fn unparsable_text_reads_as_failed_defaults() {
    let c = read_config_text(Some("{ not json"), true);
    assert_eq!(c.config_status, ConfigStatus::Failed);
    assert_eq!(strip_status(c), get_fallback_config());
}

#[test]
fn non_object_document_reads_as_failed() {
    let c = read_config_text(Some("5"), true);
    assert_eq!(c.config_status, ConfigStatus::Failed);
}

#[test]
fn subset_of_keys_merges_to_lacked() {
    let c = read_config_text(Some("{\"check_rate_ms\": 50, \"sender_port\": 9100}"), true);
    assert_eq!(c.config_status, ConfigStatus::Lacked);
    assert_eq!(c.check_rate_ms, 50);
    assert_eq!(c.sender_port, 9100);
    let d = get_fallback_config();
    assert_eq!(c.language, d.language);
    assert_eq!(c.sender_ip, d.sender_ip);
    assert_eq!(c.receiver_ip, d.receiver_ip);
    assert_eq!(c.receiver_port, d.receiver_port);
    assert_eq!(c.use_osc_query, d.use_osc_query);
    assert_eq!(c.show_debug_log, d.show_debug_log);
    assert_eq!(c.send_all_value_every_time, d.send_all_value_every_time);
    assert_eq!(c.restrict_send_rate, d.restrict_send_rate);
}

#[test]
fn unknown_extra_keys_are_tolerated() {
    let c = read_config_text(
        Some("{\"language\": \"ja\", \"future_option\": [1, 2, 3]}"),
        true,
    );
    assert_eq!(c.config_status, ConfigStatus::Lacked);
    assert_eq!(c.language, "ja");
}

#[test]
fn wrong_typed_value_reads_as_failed() {
    let c = read_config_text(Some("{\"sender_port\": \"nine thousand\"}"), true);
    assert_eq!(c.config_status, ConfigStatus::Failed);
    let c = read_config_text(Some("{\"sender_port\": 70000}"), true);
    assert_eq!(c.config_status, ConfigStatus::Failed);
    let c = read_config_text(Some("{\"check_rate_ms\": -1}"), true);
    assert_eq!(c.config_status, ConfigStatus::Failed);
}

#[test]
fn subset_without_complement_reads_as_failed() {
    let c = read_config_text(Some("{\"check_rate_ms\": 50}"), false);
    assert_eq!(c.config_status, ConfigStatus::Failed);
}

#[test]
fn complete_file_reads_as_passed() {
    let mut w = get_fallback_config();
    w.language = "ja".to_string();
    w.sender_port = 9100;
    let text = json_to_string(&config_to_json(&w));
    let c = read_config_text(Some(text.as_str()), false);
    assert_eq!(c.config_status, ConfigStatus::Passed);
    assert_eq!(c.language, "ja");
    assert_eq!(c.sender_port, 9100);
}

#[test]
fn repair_then_read_round_trips_to_passed() {
    let text = repair(None, true).expect("a fresh file is written");
    let c = read_config_text(Some(text.as_str()), true);
    assert_eq!(c.config_status, ConfigStatus::Passed);
    assert_eq!(strip_status(c), get_fallback_config());
}

#[test]
fn repair_salvages_an_incomplete_file() {
    let text = repair(Some("{\"sender_port\": 9100}"), true).expect("rewritten");
    let c = read_config_text(Some(text.as_str()), true);
    assert_eq!(c.config_status, ConfigStatus::Passed);
    assert_eq!(c.sender_port, 9100);
    assert_eq!(c.language, get_fallback_config().language);
}

#[test]
fn repair_leaves_a_loadable_file_alone_without_force() {
    assert!(repair(Some("{\"sender_port\": 9100}"), false).is_none());
    let full = repair(None, true).unwrap();
    assert!(repair(Some(full.as_str()), false).is_none());
}

#[test]
fn repair_rewrites_an_unloadable_file() {
    let r = repair(Some("{ broken"), false);
    let text = r.expect("a broken file is rewritten");
    let c = read_config_text(Some(text.as_str()), true);
    assert_eq!(c.config_status, ConfigStatus::Passed);
    assert_eq!(strip_status(c), get_fallback_config());
}

#[test]
fn repair_forces_a_rewrite_when_asked() {
    assert!(repair(None, false).is_some());
    assert!(repair(Some("{\"language\": \"ja\"}"), true).is_some());
}

#[test]
fn written_files_carry_no_status_key() {
    let text = repair(None, true).unwrap();
    assert!(!text.contains("config_status"));
}

#[test]
fn startup_warnings_fire_exactly_on_their_conditions() {
    let d = get_fallback_config();
    assert_eq!(startup_warnings(&d), Vec::<Warning>::new());
    let mut c = get_fallback_config();
    c.send_all_value_every_time = true;
    c.restrict_send_rate = false;
    c.check_rate_ms = 0;
    c.use_osc_query = true;
    assert_eq!(
        startup_warnings(&c),
        vec![
            Warning::SendAllEveryTick,
            Warning::RateUnrestricted,
            Warning::PollIntervalZero,
            Warning::DiscoveryMode,
        ]
    );
    let mut c = get_fallback_config();
    c.check_rate_ms = 101;
    assert_eq!(startup_warnings(&c), vec![Warning::PollIntervalLong]);
    let mut c = get_fallback_config();
    c.check_rate_ms = 100;
    assert_eq!(startup_warnings(&c), Vec::<Warning>::new());
}

#[test]
fn load_plan_follows_the_read_status() {
    assert_eq!(load_plan(ConfigStatus::Missing), LoadAction::OfferCreate);
    assert_eq!(load_plan(ConfigStatus::Failed), LoadAction::UseFallback);
    assert_eq!(load_plan(ConfigStatus::Passed), LoadAction::Use);
    assert_eq!(load_plan(ConfigStatus::Lacked), LoadAction::Use);
    assert_eq!(load_plan(ConfigStatus::Fallback), LoadAction::Use);
}

#[test]
fn fallback_config_holds_the_documented_defaults() {
    let c = get_fallback_config();
    assert_eq!(c.language, "en");
    assert!(!c.use_osc_query);
    assert_eq!(c.sender_ip, "127.0.0.1");
    assert_eq!(c.sender_port, 9000);
    assert_eq!(c.receiver_ip, "127.0.0.1");
    assert_eq!(c.receiver_port, 9001);
    assert!(!c.show_debug_log);
    assert!(!c.send_all_value_every_time);
    assert_eq!(c.check_rate_ms, 1);
    assert!(c.restrict_send_rate);
    assert_eq!(c.config_status, ConfigStatus::Fallback);
}
