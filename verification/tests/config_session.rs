//! Configuration parsing and session naming.

use cli_vision::config::parse_terminal_size;
use cli_vision::config::Config;
use cli_vision::config::DEFAULT_SESSION_DIR;
use cli_vision::config::DEFAULT_VLM_ENDPOINT;
use cli_vision::config::DEFAULT_VLM_MODEL;
use cli_vision::session::sanitize_name;
use cli_vision::input::TerminalSize;
use cli_vision::session::Session;

#[test]
fn test_parse_terminal_size_presets() {
    assert_eq!(parse_terminal_size("compact"), Some((80, 24)));
    assert_eq!(parse_terminal_size("standard"), Some((120, 40)));
    assert_eq!(parse_terminal_size("large"), Some((160, 50)));
    assert_eq!(parse_terminal_size("xl"), Some((200, 60)));
}

#[test]
fn test_parse_terminal_size_custom() {
    assert_eq!(parse_terminal_size("100x30"), Some((100, 30)));
    assert_eq!(parse_terminal_size("200x80"), Some((200, 80)));
}

#[test]
fn test_parse_terminal_size_invalid() {
    assert_eq!(parse_terminal_size("invalid"), None);
    assert_eq!(parse_terminal_size("100"), None);
}

#[test]
fn test_config_defaults() {
    let config = Config::defaults();
    assert_eq!(config.vlm.endpoint, DEFAULT_VLM_ENDPOINT);
    assert_eq!(config.vlm.model, DEFAULT_VLM_MODEL);
    assert_eq!(config.session.base_dir, DEFAULT_SESSION_DIR);
}

#[test]
fn test_session_new() {
    let session = Session::new();
    assert!(session.id.starts_with("session_"));
    assert!(session.dir.starts_with(DEFAULT_SESSION_DIR));
    assert!(!session.keep);
}

#[test]
fn test_session_with_name() {
    let session = Session::with_name("my-test");
    assert!(session.id.starts_with("my-test_"));
}

#[test]
fn test_sanitize_name() {
    assert_eq!(sanitize_name("hello world"), "hello_world");
    assert_eq!(sanitize_name("ctrl+c"), "ctrl_c");
    assert_eq!(sanitize_name("a/b\\c"), "a_b_c");
}

#[test]
fn test_state_path() {
    let session = Session::new();
    assert!(session.state_path(0, None).ends_with("state_0_initial.png"));
    assert!(session.state_path(1, Some("down")).ends_with("state_1_down.png"));
    assert!(session.state_path(2, Some("ctrl+c")).ends_with("state_2_ctrl_c.png"));
}

#[test]
fn session_paths_follow_the_naming_rules() {
    let session = Session::in_dir("/tmp/somewhere/run1");
    assert_eq!(session.id, "run1");
    assert!(session.keep);
    assert_eq!(session.capture_path("a b"), "/tmp/somewhere/run1/a_b.png");
    assert_eq!(session.size_subdir(80, 24), "/tmp/somewhere/run1/80x24");
    let sized = session.with_terminal_size(80, 24);
    assert_eq!(sized.terminal_size, Some((80, 24)));
}

#[test]
fn terminal_size_presets_and_custom() {
    assert_eq!(TerminalSize::Compact.dimensions(), (80, 24));
    assert_eq!(TerminalSize::Standard.dimensions(), (120, 40));
    assert_eq!(TerminalSize::Large.dimensions(), (160, 50));
    assert_eq!(TerminalSize::ExtraLarge.dimensions(), (200, 60));
    assert_eq!(TerminalSize::from_str("wide"), Some(TerminalSize::Large));
    assert_eq!(TerminalSize::from_str("100x30"), Some(TerminalSize::Custom(100, 30)));
    assert_eq!(TerminalSize::from_str("70000x30"), None);
    assert_eq!(TerminalSize::from_str("bogus"), None);
    assert_eq!(TerminalSize::all_presets().len(), 4);
}
