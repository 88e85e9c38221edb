//! Command-line options of the viewer, as plain values; parsing is the
//! caller's concern.

use vstd::prelude::*;

use crate::config::WindowConfig;

verus! {

/// The viewer's options: which scene to show and the window geometry.
pub struct Options {
    scene: String,
    width: u32,
    height: u32,
    fullscreen: bool,
}

impl Options {
    pub closed spec fn spec_scene(&self) -> Seq<char> {
        self.scene@
    }

    pub closed spec fn spec_width(&self) -> u32 {
        self.width
    }

    pub closed spec fn spec_height(&self) -> u32 {
        self.height
    }

    pub closed spec fn spec_fullscreen(&self) -> bool {
        self.fullscreen
    }

    pub fn new(scene: String, width: u32, height: u32, fullscreen: bool) -> (o: Options)
        ensures
            o.spec_scene() == scene@,
            o.spec_width() == width,
            o.spec_height() == height,
            o.spec_fullscreen() == fullscreen,
    {
        Options { scene, width, height, fullscreen }
    }

    pub fn get_scene(&self) -> (scene: &String)
        ensures
            scene@ == self.spec_scene(),
    {
        &self.scene
    }

    pub fn get_window_config(&self) -> (c: WindowConfig)
        ensures
            c.width == self.spec_width(),
            c.height == self.spec_height(),
            c.fullscreen == self.spec_fullscreen(),
    {
        WindowConfig { width: self.width, height: self.height, fullscreen: self.fullscreen }
    }
}

} // verus!
