//! Window configuration handed to the engine at startup.

use vstd::prelude::*;

verus! {

/// Requested window geometry, in logical pixels.
#[derive(Clone, Copy, Debug)]
pub struct WindowConfig {
    pub width: u32,
    pub height: u32,
    pub fullscreen: bool,
}

} // verus!
