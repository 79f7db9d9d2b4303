//! Prompt building, client configuration, stream framing, and the side
//! files' text.

use cli_vision::utils::build_description;
use cli_vision::utils::generate_filename;
use cli_vision::utils::generate_state_description;
use cli_vision::utils::generate_timestamp;
use cli_vision::vlm::build_analysis_prompt;
use cli_vision::vlm::endpoint_host_port;
use cli_vision::vlm::image_data_url;
use cli_vision::vlm::sse_payload;
use cli_vision::vlm::SsePayload;
use cli_vision::vlm::VlmConfig;

#[test]
fn test_build_analysis_prompt_initial() {
    let prompt = build_analysis_prompt(0, None, None);
    assert!(prompt.contains("initial state"));
}

#[test]
fn test_build_analysis_prompt_with_input() {
    let prompt = build_analysis_prompt(1, Some("down"), None);
    assert!(prompt.contains("down"));
}

#[test]
fn test_build_analysis_prompt_custom() {
    let prompt = build_analysis_prompt(2, Some("enter"), Some("Step {step}: Did pressing {input} work?"));
    assert_eq!(prompt, "Step 2: Did pressing enter work?");
}

#[test]
fn test_vlm_config_builder() {
    let config = VlmConfig::new("http://localhost:8080".to_string())
        .model("llava".to_string())
        .max_tokens(200)
        .activity_timeout(30);

    assert_eq!(config.endpoint, "http://localhost:8080");
    assert_eq!(config.model, "llava");
    assert_eq!(config.max_tokens, 200);
    assert_eq!(config.activity_timeout, 30);
}

#[test]
fn sse_lines_are_classified() {
    assert!(matches!(sse_payload("data: [DONE]"), SsePayload::Done));
    match sse_payload("data: {\"x\":1}") {
        SsePayload::Data(d) => assert_eq!(d, "{\"x\":1}"),
        _ => panic!("expected a data payload"),
    }
    assert!(matches!(sse_payload(": comment"), SsePayload::Other));
}

#[test]
fn host_port_is_extracted_from_endpoints() {
    assert_eq!(
        endpoint_host_port("http://127.0.0.1:8080/v1/chat/completions"),
        "127.0.0.1:8080"
    );
    assert_eq!(endpoint_host_port("https://example.test/api"), "example.test");
    assert_eq!(endpoint_host_port("bare-host:1234"), "bare-host:1234");
}

#[test]
fn image_data_url_carries_base64() {
    assert_eq!(image_data_url(&Vec::new()), "data:image/png;base64,");
    assert_eq!(image_data_url(&b"abc".to_vec()), "data:image/png;base64,YWJj");
}

#[test]
fn filenames_and_timestamps_have_the_expected_shape() {
    assert_eq!(generate_filename("cli_pty", "20240101_120000"), "cli_pty_20240101_120000.png");
    let ts = generate_timestamp();
    assert_eq!(ts.len(), 15);
    assert_eq!(ts.as_bytes()[8], b'_');
}

#[test]
fn state_descriptions_name_the_state() {
    let d = generate_state_description("cli", "initial", "");
    assert!(d.starts_with("CLI application in 'initial' state"));
    let d = generate_state_description("cli", "custom", "something");
    assert_eq!(d, "CLI application in 'custom' state: something");
    let d = generate_state_description("other", "s1", "");
    assert_eq!(d, "This snapshot captures the 's1' state of the application.");
}

#[test]
fn description_files_follow_their_templates() {
    let with_state = build_description("cli", "2024-01-01 12:00:00 UTC", Some(("s", "d")), None);
    assert!(with_state.starts_with("State: s\nDescription: d\nSource: cli\n"));
    assert!(with_state.ends_with("Actual visual content: not visualized yet"));
    let with_url = build_description("web", "t", None, Some("http://x"));
    assert!(with_url.starts_with("Web page screenshot\nURL: http://x\n"));
    let generic = build_description("mock", "t", None, None);
    assert!(generic.starts_with("mock screenshot\nSource: mock\n"));
}
