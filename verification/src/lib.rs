//! Terminal user-interface capture library.
//!
//! The crate models a VT/ANSI terminal emulator: an incremental byte-stream
//! state machine that maintains a character grid with colors and attributes,
//! a rasterizer that turns the grid into an RGB pixel buffer using a bitmap
//! font, and the pure decision logic of a PTY capture driver (input
//! translation, settle policy, capture bookkeeping).

pub mod capture;
pub mod clock;
pub mod color;
pub mod config;
pub mod framebuffer;
pub mod glyphs;
pub mod harness;
pub mod imageio;
pub mod input;
pub mod laws;
pub mod parser;
pub mod raster;
pub mod runner;
pub mod session;
pub mod settle;
pub mod sgr;
pub mod snapshot;
pub mod term;
pub mod text;
pub mod utils;
pub mod vlm;
