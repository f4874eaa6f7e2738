use client_lib::config::{get_backend_url, AppConfig, DEFAULT_TIMEOUT_SECS};
use client_lib::data::find_project_root;
use client_lib::logger::LogType;

#[test]
fn backend_url_defaults_when_unset_or_empty() {
    let unset = AppConfig::from_override(None);
    assert_eq!(unset.backend_url(), "http://localhost:3000");
    assert_eq!(get_backend_url(&unset), "http://localhost:3000");
    let empty = AppConfig::from_override(Some(String::new()));
    assert_eq!(empty.backend_url(), "http://localhost:3000");
    assert_eq!(get_backend_url(&empty), "http://localhost:3000");
    let direct = AppConfig { backend_url: String::new() };
    assert_eq!(get_backend_url(&direct), "http://localhost:3000");
}

#[test]
fn backend_url_follows_the_override() {
    let config = AppConfig::from_override(Some("https://auth.example".to_string()));
    assert_eq!(config.backend_url(), "https://auth.example");
    assert_eq!(get_backend_url(&config), "https://auth.example");
}

#[test]
fn calls_time_out_after_thirty_seconds() {
    assert_eq!(DEFAULT_TIMEOUT_SECS, 30);
}

#[test]
fn log_types_have_their_labels() {
    assert_eq!(LogType::Success.as_str(), "SUCCESS");
    assert_eq!(LogType::Failure.as_str(), "FAILURE");
    assert_eq!(LogType::Warning.as_str(), "WARNING");
}

#[test]
fn labels_are_coloured_by_severity() {
    let success = LogType::Success.colored();
    assert_eq!(success.input, "SUCCESS");
    assert_eq!(success.fgcolor, Some(colored::Color::Green));
    assert_eq!(success.bgcolor, None);
    let failure = LogType::Failure.colored();
    assert_eq!(failure.input, "FAILURE");
    assert_eq!(failure.fgcolor, Some(colored::Color::Red));
    let warning = LogType::Warning.colored();
    assert_eq!(warning.input, "WARNING");
    assert_eq!(warning.fgcolor, Some(colored::Color::Yellow));
}

#[test]
fn project_root_is_the_nearest_marked_ancestor() {
    assert_eq!(find_project_root(&vec![]), None);
    assert_eq!(find_project_root(&vec![false, false, false]), None);
    assert_eq!(find_project_root(&vec![true]), Some(0));
    assert_eq!(find_project_root(&vec![false, false, true, false, true]), Some(2));
    assert_eq!(find_project_root(&vec![false, true, true]), Some(1));
}
