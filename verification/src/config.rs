//! Configuration: the built-in defaults and the terminal-size parser.
//! Reading overrides from the environment is the caller's concern; the
//! values and their parsing live here.

use vstd::prelude::*;

use crate::input::split_two_on_x;
use crate::text::parse_u16;
use crate::text::spec_all_digits;
use crate::text::spec_ascii_lower;
use crate::text::spec_dec_value;
use crate::text::ascii_lowercase;

verus! {

/// Default analysis endpoint.
pub const DEFAULT_VLM_ENDPOINT: &'static str = "http://127.0.0.1:8080/v1/chat/completions";

/// Default analysis model name.
pub const DEFAULT_VLM_MODEL: &'static str = "qwen3";

/// Default maximum tokens in an analysis response.
pub const DEFAULT_VLM_MAX_TOKENS: u32 = 400;

/// Default connection timeout in seconds.
pub const DEFAULT_VLM_CONNECT_TIMEOUT: u64 = 10;

/// Default activity timeout in seconds.
pub const DEFAULT_VLM_ACTIVITY_TIMEOUT: u64 = 60;

/// Default base directory for sessions.
pub const DEFAULT_SESSION_DIR: &'static str = "/tmp/cli-vision";

/// Default delay between inputs in milliseconds.
pub const DEFAULT_INPUT_DELAY: u64 = 100;

/// Default terminal size preset.
pub const DEFAULT_TERMINAL_SIZE: &'static str = "standard";

/// Default terminal width in columns.
pub const DEFAULT_TERMINAL_WIDTH: u16 = 120;

/// Default terminal height in rows.
pub const DEFAULT_TERMINAL_HEIGHT: u16 = 40;

/// Default mock screenshot width in pixels.
pub const DEFAULT_MOCK_WIDTH: u32 = 800;

/// Default mock screenshot height in pixels.
pub const DEFAULT_MOCK_HEIGHT: u32 = 600;

/// Settings of the analysis client.
#[derive(Debug, Clone)]
pub struct VlmSettings {
    /// Endpoint URL.
    pub endpoint: String,
    /// Model name.
    pub model: String,
    /// Maximum tokens in a response.
    pub max_tokens: u32,
    /// Connection timeout in seconds.
    pub connect_timeout: u64,
    /// Activity timeout during streaming, in seconds.
    pub activity_timeout: u64,
}

impl VlmSettings {
    /// The built-in defaults.
    pub fn defaults() -> (s: VlmSettings)
        ensures
            s.endpoint@ == DEFAULT_VLM_ENDPOINT@,
            s.model@ == DEFAULT_VLM_MODEL@,
            s.max_tokens == DEFAULT_VLM_MAX_TOKENS,
            s.connect_timeout == DEFAULT_VLM_CONNECT_TIMEOUT,
            s.activity_timeout == DEFAULT_VLM_ACTIVITY_TIMEOUT,
    {
        VlmSettings {
            endpoint: DEFAULT_VLM_ENDPOINT.to_owned(),
            model: DEFAULT_VLM_MODEL.to_owned(),
            max_tokens: DEFAULT_VLM_MAX_TOKENS,
            connect_timeout: DEFAULT_VLM_CONNECT_TIMEOUT,
            activity_timeout: DEFAULT_VLM_ACTIVITY_TIMEOUT,
        }
    }
}

/// Settings of session storage.
#[derive(Debug, Clone)]
pub struct SessionSettings {
    /// Base directory for sessions.
    pub base_dir: String,
}

impl SessionSettings {
    /// The built-in defaults.
    pub fn defaults() -> (s: SessionSettings)
        ensures
            s.base_dir@ == DEFAULT_SESSION_DIR@,
    {
        SessionSettings { base_dir: DEFAULT_SESSION_DIR.to_owned() }
    }
}

/// Default values for command-line arguments.
#[derive(Debug, Clone)]
pub struct DefaultSettings {
    /// Delay between inputs in milliseconds.
    pub input_delay: u64,
    /// Terminal size preset name.
    pub terminal_size: String,
    /// Terminal width in columns.
    pub terminal_width: u16,
    /// Terminal height in rows.
    pub terminal_height: u16,
    /// Mock screenshot width.
    pub mock_width: u32,
    /// Mock screenshot height.
    pub mock_height: u32,
}

impl DefaultSettings {
    /// The built-in defaults.
    pub fn defaults() -> (s: DefaultSettings)
        ensures
            s.input_delay == DEFAULT_INPUT_DELAY,
            s.terminal_size@ == DEFAULT_TERMINAL_SIZE@,
            s.terminal_width == DEFAULT_TERMINAL_WIDTH,
            s.terminal_height == DEFAULT_TERMINAL_HEIGHT,
            s.mock_width == DEFAULT_MOCK_WIDTH,
            s.mock_height == DEFAULT_MOCK_HEIGHT,
    {
        DefaultSettings {
            input_delay: DEFAULT_INPUT_DELAY,
            terminal_size: DEFAULT_TERMINAL_SIZE.to_owned(),
            terminal_width: DEFAULT_TERMINAL_WIDTH,
            terminal_height: DEFAULT_TERMINAL_HEIGHT,
            mock_width: DEFAULT_MOCK_WIDTH,
            mock_height: DEFAULT_MOCK_HEIGHT,
        }
    }
}

/// The whole configuration.
#[derive(Debug, Clone)]
pub struct Config {
    /// Analysis-client settings.
    pub vlm: VlmSettings,
    /// Session-storage settings.
    pub session: SessionSettings,
    /// Defaults for command-line arguments.
    pub defaults: DefaultSettings,
}

impl Config {
    /// The built-in defaults, ignoring the environment.
    pub fn defaults() -> (c: Config)
        ensures
            c.vlm.endpoint@ == DEFAULT_VLM_ENDPOINT@,
            c.vlm.model@ == DEFAULT_VLM_MODEL@,
            c.vlm.max_tokens == DEFAULT_VLM_MAX_TOKENS,
            c.vlm.connect_timeout == DEFAULT_VLM_CONNECT_TIMEOUT,
            c.vlm.activity_timeout == DEFAULT_VLM_ACTIVITY_TIMEOUT,
            c.session.base_dir@ == DEFAULT_SESSION_DIR@,
            c.defaults.input_delay == DEFAULT_INPUT_DELAY,
            c.defaults.terminal_size@ == DEFAULT_TERMINAL_SIZE@,
            c.defaults.terminal_width == DEFAULT_TERMINAL_WIDTH,
            c.defaults.terminal_height == DEFAULT_TERMINAL_HEIGHT,
    {
        Config {
            vlm: VlmSettings::defaults(),
            session: SessionSettings::defaults(),
            defaults: DefaultSettings::defaults(),
        }
    }
}

/// What a terminal size string parses to: one of the four preset names
/// lowercased, or `WxH` with both sides 16-bit decimal numbers.
pub open spec fn spec_parse_terminal_size(raw: Seq<char>) -> Option<(u16, u16)> {
    let t = spec_ascii_lower(raw);
    if t == "compact"@ {
        Some((80u16, 24u16))
    } else if t == "standard"@ {
        Some((120u16, 40u16))
    } else if t == "large"@ {
        Some((160u16, 50u16))
    } else if t == "xl"@ {
        Some((200u16, 60u16))
    } else if crate::input::spec_count_x(t) == 1 {
        let i = crate::input::spec_first_x(t);
        let left = t.take(i);
        let right = t.skip(i + 1);
        if spec_all_digits(left) && spec_dec_value(left) <= u16::MAX && spec_all_digits(right)
            && spec_dec_value(right) <= u16::MAX {
            Some((spec_dec_value(left) as u16, spec_dec_value(right) as u16))
        } else {
            None
        }
    } else {
        None
    }
}

/// Parse a terminal size string into `(width, height)`.
pub fn parse_terminal_size(size: &str) -> (r: Option<(u16, u16)>)
    ensures
        r == spec_parse_terminal_size(size@),
{
    let lowered = ascii_lowercase(size);
    let t = lowered.as_str();
    if crate::text::str_is(t, "compact") {
        return Some((80, 24));
    }
    if crate::text::str_is(t, "standard") {
        return Some((120, 40));
    }
    if crate::text::str_is(t, "large") {
        return Some((160, 50));
    }
    if crate::text::str_is(t, "xl") {
        return Some((200, 60));
    }
    match split_two_on_x(t) {
        Some((left, right)) => {
            match (parse_u16(left.as_str()), parse_u16(right.as_str())) {
                (Some(w), Some(h)) => Some((w, h)),
                _ => None,
            }
        },
        None => None,
    }
}

} // verus!
