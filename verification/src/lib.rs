//! Turns an irregularly timestamped folder of photographs into a regularly
//! spaced, captioned time-lapse sequence.
//!
//! The crate holds the verified core: the timestamp codec, the source
//! catalog with nearest-preceding selection, the night-window state machine
//! that drives the scheduling loop, the pixel-level compositing (mean colour,
//! placeholder synthesis, side-by-side diagnostic frames), and the output
//! naming rules. Directory listing, image decoding and encoding, and
//! configuration-file loading are left to the thin driver around the crate.

use vstd::prelude::*;

pub mod catalog;
pub mod compositor;
pub mod config;
pub mod error;
pub mod font;
pub mod frame;
pub mod namer;
pub mod scheduler;
pub mod timecodec;

pub use config::Config;
pub use error::Error;

verus! {

/// Usage line printed by the command-line driver when the arguments are bad.
pub fn help() -> (r: String)
    ensures
        r@ == "usage: forest-green <configuration_file> [--forest_green]\n"@,
{
    String::from_str("usage: forest-green <configuration_file> [--forest_green]\n")
}

} // verus!
