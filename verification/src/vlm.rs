//! The analysis client's pure parts: its configuration, its errors and
//! progress reports, the prompt builder, the image data URL, the
//! server-sent-event framing, and the host extraction for health checks.
//! The HTTP transport itself is the caller's concern.

use vstd::prelude::*;

use vstd::string::StringExecFns;
use crate::config::DEFAULT_VLM_ACTIVITY_TIMEOUT;
use crate::config::DEFAULT_VLM_CONNECT_TIMEOUT;
use crate::config::DEFAULT_VLM_MAX_TOKENS;
use crate::config::DEFAULT_VLM_MODEL;
use crate::text::spec_starts_with;
use crate::text::starts_with;
use crate::text::str_is;
use crate::text::dec_string;
use crate::text::replace_all;
use crate::text::spec_dec;
use crate::text::spec_replace;

verus! {

/// What a base64 encoding of a byte sequence reads as, with the standard
/// alphabet and padding.
pub uninterp spec fn base64_of(data: Seq<u8>) -> Seq<char>;

/// Relies on `base64::engine::general_purpose::STANDARD.encode`: encode
/// bytes with the standard alphabet and padding; the result depends on
/// the bytes alone.
#[verifier::external_body]
fn base64_encode(data: &Vec<u8>) -> (r: String)
    ensures
        r@ == base64_of(data@),
{
    base64::Engine::encode(&base64::engine::general_purpose::STANDARD, data)
}

/// The inline data URL that carries a PNG image to the analysis endpoint.
pub fn image_data_url(image: &Vec<u8>) -> (r: String)
    ensures
        r@ == "data:image/png;base64,"@ + base64_of(image@),
{
    let encoded = base64_encode(image);
    "data:image/png;base64,".to_owned().concat(encoded.as_str())
}

/// Errors of analysis operations.
#[derive(Debug, Clone)]
pub enum VlmError {
    /// The endpoint could not be reached.
    ConnectionFailed(String),
    /// No activity for this many seconds during streaming.
    ActivityTimeout(u64),
    /// The response was not understood.
    InvalidResponse(String),
    /// An I/O operation failed.
    Io(String),
}

/// Result type for analysis operations.
pub type VlmResult<T> = Result<T, VlmError>;

/// Configuration of the analysis client.
#[derive(Debug, Clone)]
pub struct VlmConfig {
    /// Endpoint URL.
    pub endpoint: String,
    /// Model name.
    pub model: String,
    /// Maximum tokens in a response.
    pub max_tokens: u32,
    /// Connection timeout in seconds.
    pub connection_timeout: u64,
    /// Inactivity timeout during streaming, in seconds.
    pub activity_timeout: u64,
}

impl VlmConfig {
    /// A configuration for the given endpoint with the built-in defaults.
    pub fn new(endpoint: String) -> (c: VlmConfig)
        ensures
            c.endpoint@ == endpoint@,
            c.model@ == DEFAULT_VLM_MODEL@,
            c.max_tokens == DEFAULT_VLM_MAX_TOKENS,
            c.connection_timeout == DEFAULT_VLM_CONNECT_TIMEOUT,
            c.activity_timeout == DEFAULT_VLM_ACTIVITY_TIMEOUT,
    {
        VlmConfig {
            endpoint,
            model: DEFAULT_VLM_MODEL.to_owned(),
            max_tokens: DEFAULT_VLM_MAX_TOKENS,
            connection_timeout: DEFAULT_VLM_CONNECT_TIMEOUT,
            activity_timeout: DEFAULT_VLM_ACTIVITY_TIMEOUT,
        }
    }

    /// Set the model name.
    pub fn model(self, model: String) -> (c: VlmConfig)
        ensures
            c.model@ == model@,
            c.endpoint == self.endpoint,
            c.max_tokens == self.max_tokens,
            c.connection_timeout == self.connection_timeout,
            c.activity_timeout == self.activity_timeout,
    {
        let mut c = self;
        c.model = model;
        c
    }

    /// Set the maximum response tokens.
    pub fn max_tokens(self, max_tokens: u32) -> (c: VlmConfig)
        ensures
            c.max_tokens == max_tokens,
            c.endpoint == self.endpoint,
            c.model == self.model,
            c.connection_timeout == self.connection_timeout,
            c.activity_timeout == self.activity_timeout,
    {
        let mut c = self;
        c.max_tokens = max_tokens;
        c
    }

    /// Set the streaming inactivity timeout.
    pub fn activity_timeout(self, seconds: u64) -> (c: VlmConfig)
        ensures
            c.activity_timeout == seconds,
            c.endpoint == self.endpoint,
            c.model == self.model,
            c.max_tokens == self.max_tokens,
            c.connection_timeout == self.connection_timeout,
    {
        let mut c = self;
        c.activity_timeout = seconds;
        c
    }
}

/// Progress of a streaming analysis.
#[derive(Debug, Clone)]
pub enum VlmProgress {
    /// The connection is up.
    Connected,
    /// Partial content received so far.
    Receiving(String),
    /// The analysis finished with this content.
    Complete(String),
    /// The analysis failed.
    Error(String),
}

/// The analysis prompt for one step: a custom template has `{step}` and
/// `{input}` filled in; otherwise step 0 asks about the initial state and
/// later steps about the effect of the input pressed.
pub open spec fn spec_analysis_prompt(
    step: int,
    input: Option<Seq<char>>,
    custom: Option<Seq<char>>,
) -> Seq<char> {
    match custom {
        Some(t) => spec_replace(
            spec_replace(t, "{step}"@, spec_dec(step)),
            "{input}"@,
            match input {
                Some(s) => s,
                None => "none"@,
            },
        ),
        None => if step == 0 {
            "Describe the initial state of this terminal application. What UI elements are visible? What is selected or highlighted?"@
        } else {
            "The user pressed '"@ + (match input {
                Some(s) => s,
                None => "unknown"@,
            })
                + "'. Describe what changed in this terminal application. What is the current state? What is now selected or highlighted?"@
        },
    }
}

/// Build the analysis prompt for one captured step.
pub fn build_analysis_prompt(step: usize, input: Option<&str>, custom_prompt: Option<&str>) -> (r:
    String)
    ensures
        r@ == spec_analysis_prompt(step as int, match input {
            Some(s) => Some(s@),
            None => None,
        }, match custom_prompt {
            Some(s) => Some(s@),
            None => None,
        }),
{
    match custom_prompt {
        Some(custom) => {
            let step_text = dec_string(step as u64);
            let input_text = match input {
                Some(s) => s,
                None => "none",
            };
            proof {
                reveal_strlit("{step}");
                reveal_strlit("{input}");
            }
            let once = replace_all(custom, "{step}", step_text.as_str());
            replace_all(once.as_str(), "{input}", input_text)
        },
        None => {
            if step == 0 {
                "Describe the initial state of this terminal application. What UI elements are visible? What is selected or highlighted?".to_owned()
            } else {
                let input_text = match input {
                    Some(s) => s,
                    None => "unknown",
                };
                let r = "The user pressed '".to_owned().concat(input_text).concat(
                    "'. Describe what changed in this terminal application. What is the current state? What is now selected or highlighted?",
                );
                proof {
                    assert(r@ == spec_analysis_prompt(step as int, match input {
                        Some(s) => Some(s@),
                        None => None,
                    }, None));
                }
                r
            }
        },
    }
}

/// One line of a server-sent-event stream: a data line carries a payload,
/// the end marker closes the stream, anything else is ignored.
#[derive(Debug, Clone)]
pub enum SsePayload {
    /// The stream is complete.
    Done,
    /// One data payload.
    Data(String),
    /// Not a data line.
    Other,
}

/// Classify one line of a server-sent-event stream.
pub fn sse_payload(line: &str) -> (r: SsePayload)
    ensures
        spec_starts_with(line@, "data: "@) && line@.skip(6) == "[DONE]"@ <==> r is Done,
        !spec_starts_with(line@, "data: "@) <==> r is Other,
        r is Data ==> r->Data_0@ == line@.skip(6),
{
    if starts_with(line, "data: ") {
        let n = line.unicode_len();
        proof {
            assert("data: "@.len() == 6) by {
                reveal_strlit("data: ");
            }
        }
        let rest = line.substring_char(6, n);
        if str_is(rest, "[DONE]") {
            SsePayload::Done
        } else {
            SsePayload::Data(rest.to_owned())
        }
    } else {
        SsePayload::Other
    }
}

/// The sequence with every copy of a prefix stripped from the front.
pub open spec fn spec_strip_prefix_all(s: Seq<char>, p: Seq<char>) -> Seq<char>
    decreases s.len(),
{
    if p.len() > 0 && spec_starts_with(s, p) {
        spec_strip_prefix_all(s.skip(p.len() as int), p)
    } else {
        s
    }
}

/// The host and port part of an endpoint URL: the scheme prefixes are
/// stripped and everything up to the first slash remains.
pub open spec fn spec_host_port(endpoint: Seq<char>) -> Seq<char> {
    let bare = spec_strip_prefix_all(spec_strip_prefix_all(endpoint, "http://"@), "https://"@);
    bare.take(spec_until_slash(bare))
}

/// The length of the prefix before the first `/`, or the whole length.
pub open spec fn spec_until_slash(s: Seq<char>) -> int
    decreases s.len(),
{
    if s.len() == 0 {
        0
    } else if s[0] == '/' {
        0
    } else {
        1 + spec_until_slash(s.drop_first())
    }
}

/// Strip every copy of a prefix from the front of a string.
fn strip_prefix_all(s: &str, p: &str) -> (r: String)
    requires
        p@.len() > 0,
    ensures
        r@ == spec_strip_prefix_all(s@, p@),
    decreases s@.len(),
{
    if starts_with(s, p) {
        let n = s.unicode_len();
        let m = p.unicode_len();
        let rest = s.substring_char(m, n);
        strip_prefix_all(rest, p)
    } else {
        s.to_owned()
    }
}

/// Extract the host and port from an endpoint URL, for a reachability
/// check: scheme stripped, then everything before the first slash.
pub fn endpoint_host_port(endpoint: &str) -> (r: String)
    ensures
        r@ == spec_host_port(endpoint@),
{
    proof {
        assert("http://"@.len() == 7) by {
            reveal_strlit("http://");
        }
        assert("https://"@.len() == 8) by {
            reveal_strlit("https://");
        }
    }
    let once = strip_prefix_all(endpoint, "http://");
    let bare = strip_prefix_all(once.as_str(), "https://");
    let s = bare.as_str();
    let n = s.unicode_len();
    let mut i: usize = 0;
    proof {
        assert(s@.skip(0) =~= s@);
    }
    while i < n && s.get_char(i) != '/'
        invariant
            n == s@.len(),
            0 <= i <= n,
            spec_until_slash(s@) == i + spec_until_slash(s@.skip(i as int)),
            forall|j: int| 0 <= j < i ==> s@[j] != '/',
        decreases n - i,
    {
        proof {
            assert(s@.skip(i as int)[0] == s@[i as int]);
            assert(s@.skip(i as int).drop_first() =~= s@.skip(i + 1));
        }
        i = i + 1;
    }
    proof {
        if i < n {
            assert(s@.skip(i as int)[0] == s@[i as int]);
        } else {
            assert(s@.skip(i as int) =~= Seq::<char>::empty());
        }
        assert(spec_until_slash(s@) == i);
    }
    s.substring_char(0, i).to_owned()
}

} // verus!
