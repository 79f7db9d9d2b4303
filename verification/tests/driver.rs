//! Input translation, the settle policy, and the capture session's
//! bookkeeping.

use cli_vision::capture::key_to_sequence as backend_key_to_sequence;
use cli_vision::capture::CaptureSession;
use cli_vision::capture::PtyBackend;
use cli_vision::capture::PtyBackendConfig;
use cli_vision::input::key_to_sequence;
use cli_vision::input::parse_input;
use cli_vision::settle::settle_continue;
use cli_vision::settle::SettleEvent;

#[test]
fn arrow_key_translates_to_its_escape_sequence() {
    // the bytes a driven child receives for one "right" input
    assert_eq!(parse_input("right"), vec![0x1b, 0x5b, 0x43]);
    assert_eq!(parse_input("Up "), vec![0x1b, 0x5b, 0x41]);
}

#[test]
fn input_table_covers_named_keys() {
    assert_eq!(parse_input("enter"), vec![0x0d]);
    assert_eq!(parse_input("space"), vec![0x20]);
    assert_eq!(parse_input("backspace"), vec![0x7f]);
    assert_eq!(parse_input("escape"), vec![0x1b]);
    assert_eq!(parse_input("f1"), vec![0x1b, 0x4f, 0x50]);
    assert_eq!(parse_input("f12"), vec![0x1b, 0x5b, 0x32, 0x34, 0x7e]);
    assert_eq!(parse_input("pageup"), vec![0x1b, 0x5b, 0x35, 0x7e]);
    assert_eq!(parse_input("ctrl+c"), vec![3]);
    assert_eq!(parse_input("ctrl+space"), vec![0]);
    assert_eq!(parse_input("alt+x"), vec![0x1b, b'x']);
    assert_eq!(parse_input("hello"), b"hello".to_vec());
}

#[test]
fn key_sequences_match_the_driver_table() {
    assert_eq!(key_to_sequence("down"), vec![0x1b, 0x5b, 0x42]);
    assert_eq!(key_to_sequence("backspace"), vec![0x7f]);
    assert_eq!(key_to_sequence("q"), b"q".to_vec());
    // an unrecognized name goes through as its own bytes, verbatim
    assert_eq!(key_to_sequence("Home"), b"Home".to_vec());
    assert_eq!(backend_key_to_sequence("esc"), vec![0x1b]);
    assert_eq!(backend_key_to_sequence("enter"), vec![0x0d]);
    assert_eq!(backend_key_to_sequence("backspace"), vec![0x7f]);
    assert_eq!(backend_key_to_sequence("F5"), b"F5".to_vec());
}

#[test]
fn settling_is_bounded_and_quiet_window_ends_it() {
    // within the bound a chunk keeps the drain going
    assert!(settle_continue(100, 0, 100, 180, 3000, SettleEvent::Chunk));
    // quiet for the whole window: stop
    assert!(!settle_continue(400, 0, 100, 180, 3000, SettleEvent::Timeout));
    // still noisy: keep waiting
    assert!(settle_continue(400, 0, 300, 180, 3000, SettleEvent::Timeout));
    // the phase bound ends settling even while bytes keep coming
    assert!(!settle_continue(3000, 0, 3000, 180, 3000, SettleEvent::Chunk));
    // a closed queue ends it at once
    assert!(!settle_continue(10, 0, 10, 180, 3000, SettleEvent::Disconnected));
}

#[test]
fn capture_session_numbers_steps_and_labels_inputs() {
    let mut session = CaptureSession::new(3, 2, vec!["right".to_string()]);
    assert_eq!(session.captured(), 0);
    assert!(session.next_input_bytes().is_none());

    session.feed_chunk(&b"AB".to_vec());
    session.capture_current().unwrap();
    assert_eq!(session.captured(), 1);

    let (bytes, label) = session.next_input_bytes().unwrap();
    assert_eq!(bytes, vec![0x1b, 0x5b, 0x43]);
    assert_eq!(label, "right");

    session.feed_chunk(&b"C".to_vec());
    session.capture_current().unwrap();
    assert!(session.is_complete());

    let captures = session.into_captures();
    assert_eq!(captures.len(), 2);
    assert_eq!(captures[0].step, 0);
    assert_eq!(captures[0].input, None);
    assert_eq!(captures[1].step, 1);
    assert_eq!(captures[1].input, Some("right".to_string()));
    assert_eq!(captures[0].width, 48);
    assert_eq!(captures[0].height, 64);
    // PNG magic bytes
    assert_eq!(&captures[0].image_data[0..4], &[0x89, 0x50, 0x4e, 0x47]);
}

#[test]
fn pty_backend_config_builders_accumulate() {
    let config = PtyBackendConfig::new("/bin/demo".to_string())
        .arg("--headless".to_string())
        .args(vec!["-v".to_string(), "-q".to_string()])
        .size(80, 24);
    assert_eq!(config.binary_path, "/bin/demo");
    assert_eq!(config.args, vec!["--headless", "-v", "-q"]);
    assert_eq!(config.terminal_width, 80);
    assert_eq!(config.terminal_height, 24);
    let backend = PtyBackend::new(config);
    assert_eq!(backend.config.binary_path, "/bin/demo");
    let by_path = PtyBackend::for_binary("/bin/other".to_string());
    assert_eq!(by_path.config.terminal_width, 120);
    assert_eq!(by_path.config.terminal_height, 40);
}
