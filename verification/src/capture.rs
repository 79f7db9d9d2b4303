//! The capture driver's verified core: the emulator-and-capture state that
//! one PTY run threads through, and the PTY backend configuration.
//!
//! The run itself — spawning, reading, writing, waiting — is outside work;
//! it hands byte chunks in and takes pixel buffers out.  Everything the
//! run decides and records is here: bytes are folded in order, captures
//! are numbered from zero, capture `k` carries input `k - 1`, and a run
//! over `n` inputs yields at most `n + 1` captures.

use vstd::prelude::*;

use vstd::utf8::encode_utf8;
use crate::harness::InputAction;
use crate::imageio::png_of;
use crate::input::parse_input;
use crate::input::spec_parse_input;
use crate::text::str_bytes;
use crate::text::str_is;
use crate::text::ascii_lowercase;
use crate::parser::Vt100Parser;
use crate::parser::spec_steps;
use crate::raster::spec_render_data;
use crate::snapshot::SnapshotResult;
use crate::text::spec_ascii_lower;

verus! {

/// One state captured during a run.
#[derive(Debug, Clone)]
pub struct StateCaptureResult {
    /// Step number; step 0 is the state before any input.
    pub step: usize,
    /// The input that led to this state; `None` for step 0.
    pub input: Option<String>,
    /// The PNG-encoded pixels.
    pub image_data: Vec<u8>,
    /// Image width in pixels.
    pub width: u32,
    /// Image height in pixels.
    pub height: u32,
}

/// Render a parser's terminal to PNG bytes.  A well-formed terminal has
/// nonzero dimensions, so this always succeeds.
pub fn render_to_png(parser: &Vt100Parser) -> (r: SnapshotResult<Vec<u8>>)
    requires
        parser.wf(),
        (parser.terminal.width as int) * 16 * ((parser.terminal.height as int) * 32) * 3
            <= usize::MAX,
    ensures
        r is Ok,
        r->Ok_0@ == png_of(
            (parser.terminal.width * 16) as u32,
            (parser.terminal.height * 32) as u32,
            spec_render_data(
                parser@.term.grid,
                parser.terminal.width as int,
                parser.terminal.height as int,
            ),
        ),
{
    let frame = parser.terminal.render_frame();
    frame.to_png()
}

/// The state one capture run threads: the emulator, the input script, and
/// the captures taken so far.
pub struct CaptureSession {
    /// The terminal emulator fed by the reader.
    pub parser: Vt100Parser,
    /// The symbolic inputs of the run, in order.
    pub inputs: Vec<String>,
    /// The captures taken so far, in step order.
    pub captures: Vec<StateCaptureResult>,
}

impl CaptureSession {
    /// Well-formedness: the emulator is well-formed, its rendered frame
    /// fits memory, and the capture log is consistent with the script:
    /// capture `k` is step `k`, labeled with input `k - 1`.
    pub open spec fn wf(&self) -> bool {
        &&& self.parser.wf()
        &&& (self.parser.terminal.width as int) * 16 * ((self.parser.terminal.height as int) * 32)
            * 3 <= usize::MAX
        &&& self.captures@.len() <= self.inputs@.len() + 1
        &&& forall|k: int|
            0 <= k < self.captures@.len() ==> (#[trigger] self.captures@[k]).step == k
        &&& forall|k: int|
            0 <= k < self.captures@.len() ==> (#[trigger] self.captures@[k]).width
                == self.parser.terminal.width * 16
        &&& forall|k: int|
            0 <= k < self.captures@.len() ==> (#[trigger] self.captures@[k]).height
                == self.parser.terminal.height * 32
        &&& self.captures@.len() > 0 ==> self.captures@[0].input is None
        &&& forall|k: int|
            1 <= k < self.captures@.len() ==> (#[trigger] self.captures@[k]).input is Some
                && self.captures@[k].input->0@ == self.inputs@[k - 1]@
    }

    /// Open a session over a fresh emulator of the given size.
    pub fn new(cols: u16, rows: u16, inputs: Vec<String>) -> (s: CaptureSession)
        requires
            cols >= 1,
            rows >= 1,
            (cols as int) * 16 * ((rows as int) * 32) * 3 <= usize::MAX,
        ensures
            s.wf(),
            s.parser.terminal.width == cols,
            s.parser.terminal.height == rows,
            s.parser@.term =~~= crate::term::spec_fresh(cols as int, rows as int),
            s.inputs@ == inputs@,
            s.captures@.len() == 0,
    {
        CaptureSession {
            parser: Vt100Parser::new(cols as u32, rows as u32),
            inputs,
            captures: Vec::new(),
        }
    }

    /// Fold one chunk of child output into the emulator, in order.
    pub fn feed_chunk(&mut self, bytes: &Vec<u8>)
        requires
            old(self).wf(),
        ensures
            final(self).wf(),
            final(self).parser@ == spec_steps(old(self).parser@, bytes@),
            final(self).inputs@ == old(self).inputs@,
            final(self).captures@ == old(self).captures@,
            final(self).parser.terminal.width == old(self).parser.terminal.width,
            final(self).parser.terminal.height == old(self).parser.terminal.height,
    {
        self.parser.process_bytes(bytes);
    }

    /// How many captures have been taken.
    pub fn captured(&self) -> (n: usize)
        ensures
            n == self.captures@.len(),
    {
        self.captures.len()
    }

    /// How many inputs the script holds.
    pub fn input_count(&self) -> (n: usize)
        ensures
            n == self.inputs@.len(),
    {
        self.inputs.len()
    }

    /// Whether the run has captured every step.
    pub fn is_complete(&self) -> (r: bool)
        ensures
            r == (self.captures@.len() == self.inputs@.len() + 1),
    {
        let k = self.captures.len();
        k >= 1 && k - 1 == self.inputs.len()
    }

    /// The bytes of the next input to write, or `None` when the script is
    /// exhausted or the initial capture has not been taken yet.
    pub fn next_input_bytes(&self) -> (r: Option<(Vec<u8>, String)>)
        requires
            self.wf(),
        ensures
            r is Some <==> 1 <= self.captures@.len() <= self.inputs@.len(),
            r is Some ==> (r->0).0@ == spec_parse_input(
                self.inputs@[self.captures@.len() - 1]@,
            ) && (r->0).1@ == self.inputs@[self.captures@.len() - 1]@,
    {
        let k = self.captures.len();
        if k >= 1 && k <= self.inputs.len() {
            let name = &self.inputs[k - 1];
            let bytes = parse_input(name.as_str());
            Some((bytes, name.clone()))
        } else {
            None
        }
    }

    /// Capture the current state: rasterize the grid, encode it, and
    /// append it as the next step, labeled with the input that led here.
    /// This always succeeds: the session's well-formedness guarantees the
    /// frame encodes.
    pub fn capture_current(&mut self) -> (r: SnapshotResult<()>)
        requires
            old(self).wf(),
            old(self).captures@.len() <= old(self).inputs@.len(),
        ensures
            final(self).wf(),
            final(self).parser == old(self).parser,
            final(self).inputs@ == old(self).inputs@,
            r is Ok,
            final(self).captures@.len() == old(self).captures@.len() + 1,
            final(self).captures@.drop_last() == old(self).captures@,
            ({
                let c = final(self).captures@.last();
                &&& c.step == old(self).captures@.len()
                &&& c.width == old(self).parser.terminal.width * 16
                &&& c.height == old(self).parser.terminal.height * 32
                &&& c.image_data@ == png_of(
                    (old(self).parser.terminal.width * 16) as u32,
                    (old(self).parser.terminal.height * 32) as u32,
                    spec_render_data(
                        old(self).parser@.term.grid,
                        old(self).parser.terminal.width as int,
                        old(self).parser.terminal.height as int,
                    ),
                )
            }),
    {
        let step = self.captures.len();
        let image_data = match render_to_png(&self.parser) {
            Ok(d) => d,
            Err(e) => {
                return Err(e);
            },
        };
        let input: Option<String> = if step == 0 {
            None
        } else {
            Some(self.inputs[step - 1].clone())
        };
        let width = self.parser.terminal.width * 16;
        let height = self.parser.terminal.height * 32;
        let capture = StateCaptureResult { step, input, image_data, width, height };
        self.captures.push(capture);
        Ok(())
    }

    /// Hand the captures out, consuming the session.
    pub fn into_captures(self) -> (r: Vec<StateCaptureResult>)
        ensures
            r@ == self.captures@,
    {
        self.captures
    }
}

/// Configuration for a PTY capture: the binary, its arguments, the inputs
/// to send, and the terminal dimensions.
#[derive(Debug, Clone)]
pub struct PtyBackendConfig {
    /// Path of the binary to execute.
    pub binary_path: String,
    /// Arguments passed to the binary.
    pub args: Vec<String>,
    /// Input actions sent after launch.
    pub inputs: Vec<InputAction>,
    /// Terminal width in columns.
    pub terminal_width: u16,
    /// Terminal height in rows.
    pub terminal_height: u16,
}

impl Default for PtyBackendConfig {
    /// An empty command at the default 120x40 terminal.
    fn default() -> (c: PtyBackendConfig)
        ensures
            c.binary_path@.len() == 0,
            c.args@.len() == 0,
            c.inputs@.len() == 0,
            c.terminal_width == 120,
            c.terminal_height == 40,
    {
        PtyBackendConfig {
            binary_path: String::new(),
            args: Vec::new(),
            inputs: Vec::new(),
            terminal_width: 120,
            terminal_height: 40,
        }
    }
}

impl PtyBackendConfig {
    /// A configuration for the given binary at the default terminal size.
    pub fn new(binary_path: String) -> (c: PtyBackendConfig)
        ensures
            c.binary_path@ == binary_path@,
            c.args@.len() == 0,
            c.inputs@.len() == 0,
            c.terminal_width == 120,
            c.terminal_height == 40,
    {
        PtyBackendConfig {
            binary_path,
            args: Vec::new(),
            inputs: Vec::new(),
            terminal_width: 120,
            terminal_height: 40,
        }
    }

    /// Add one argument.
    pub fn arg(self, arg: String) -> (c: PtyBackendConfig)
        ensures
            c.args@ == self.args@.push(arg),
            c.binary_path == self.binary_path,
            c.inputs == self.inputs,
            c.terminal_width == self.terminal_width,
            c.terminal_height == self.terminal_height,
    {
        let mut c = self;
        c.args.push(arg);
        c
    }

    /// Add several arguments.
    pub fn args(self, more: Vec<String>) -> (c: PtyBackendConfig)
        ensures
            c.args@ == self.args@ + more@,
            c.binary_path == self.binary_path,
            c.inputs == self.inputs,
            c.terminal_width == self.terminal_width,
            c.terminal_height == self.terminal_height,
    {
        let mut c = self;
        let mut more = more;
        c.args.append(&mut more);
        c
    }

    /// Add one input action.
    pub fn input(self, action: InputAction) -> (c: PtyBackendConfig)
        ensures
            c.inputs@ == self.inputs@.push(action),
            c.binary_path == self.binary_path,
            c.args == self.args,
            c.terminal_width == self.terminal_width,
            c.terminal_height == self.terminal_height,
    {
        let mut c = self;
        c.inputs.push(action);
        c
    }

    /// Add several input actions.
    pub fn inputs(self, more: Vec<InputAction>) -> (c: PtyBackendConfig)
        ensures
            c.inputs@ == self.inputs@ + more@,
            c.binary_path == self.binary_path,
            c.args == self.args,
            c.terminal_width == self.terminal_width,
            c.terminal_height == self.terminal_height,
    {
        let mut c = self;
        let mut more = more;
        c.inputs.append(&mut more);
        c
    }

    /// Set the terminal dimensions.
    pub fn size(self, width: u16, height: u16) -> (c: PtyBackendConfig)
        ensures
            c.terminal_width == width,
            c.terminal_height == height,
            c.binary_path == self.binary_path,
            c.args == self.args,
            c.inputs == self.inputs,
    {
        let mut c = self;
        c.terminal_width = width;
        c.terminal_height = height;
        c
    }
}

/// A PTY-based capture backend: spawns the configured binary in a
/// pseudo-terminal and renders its screen.
#[derive(Debug, Clone)]
pub struct PtyBackend {
    /// The capture configuration.
    pub config: PtyBackendConfig,
}

impl PtyBackend {
    /// A backend over the given configuration.
    pub fn new(config: PtyBackendConfig) -> (b: PtyBackend)
        ensures
            b.config == config,
    {
        PtyBackend { config }
    }

    /// A backend for the given binary with default settings.
    pub fn for_binary(path: String) -> (b: PtyBackend)
        ensures
            b.config.binary_path@ == path@,
            b.config.args@.len() == 0,
            b.config.inputs@.len() == 0,
            b.config.terminal_width == 120,
            b.config.terminal_height == 40,
    {
        PtyBackend { config: PtyBackendConfig::new(path) }
    }
}

/// The control sequence for a key label, as the backend sends it: the
/// driver's table with an ESC entry; backspace is the delete byte, and
/// any other name is sent as its own bytes, verbatim.
pub open spec fn spec_backend_key_sequence(raw: Seq<char>) -> Seq<u8> {
    let t = spec_ascii_lower(raw);
    if t == "up"@ {
        seq![0x1bu8, 0x5bu8, 0x41u8]
    } else if t == "down"@ {
        seq![0x1bu8, 0x5bu8, 0x42u8]
    } else if t == "right"@ {
        seq![0x1bu8, 0x5bu8, 0x43u8]
    } else if t == "left"@ {
        seq![0x1bu8, 0x5bu8, 0x44u8]
    } else if t == "enter"@ {
        seq![0x0du8]
    } else if t == "space"@ {
        seq![0x20u8]
    } else if t == "tab"@ {
        seq![0x09u8]
    } else if t == "backspace"@ {
        seq![0x7fu8]
    } else if t == "escape"@ || t == "esc"@ {
        seq![0x1bu8]
    } else {
        encode_utf8(raw)
    }
}

/// Translate a key label to the bytes the backend writes to the PTY.
pub fn key_to_sequence(key: &str) -> (r: Vec<u8>)
    ensures
        r@ == spec_backend_key_sequence(key@),
{
    let lowered = ascii_lowercase(key);
    let s = lowered.as_str();
    if str_is(s, "up") {
        return vec![0x1b, 0x5b, 0x41];
    }
    if str_is(s, "down") {
        return vec![0x1b, 0x5b, 0x42];
    }
    if str_is(s, "right") {
        return vec![0x1b, 0x5b, 0x43];
    }
    if str_is(s, "left") {
        return vec![0x1b, 0x5b, 0x44];
    }
    if str_is(s, "enter") {
        return vec![0x0d];
    }
    if str_is(s, "space") {
        return vec![0x20];
    }
    if str_is(s, "tab") {
        return vec![0x09];
    }
    if str_is(s, "backspace") {
        return vec![0x7f];
    }
    if str_is(s, "escape") || str_is(s, "esc") {
        return vec![0x1b];
    }
    str_bytes(key)
}

} // verus!
