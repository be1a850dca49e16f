//! The primary configuration of a webview application: window title,
//! dimensions, and resize behaviour.

use vstd::prelude::*;

verus! {

/// The resize condition the window manager is given.
#[derive(Clone, Copy, Debug, PartialEq, Eq, Structural)]
pub enum SizeHint {
    /// Width and height are the default size.
    NONE,
    /// Width and height are minimum bounds.
    MIN,
    /// Width and height are maximum bounds.
    MAX,
    /// The window size may not be changed by the user.
    FIXED,
}

impl Default for SizeHint {
    /// The default hint: width and height are the default size.
    fn default() -> (r: SizeHint)
        ensures
            r == SizeHint::NONE,
    {
        SizeHint::NONE
    }
}

/// The primary configuration of a webview application, assembled by
/// chained setters and consumed once at start-up.
#[derive(Clone, Debug)]
pub struct QuarkConfig {
    pub title: String,
    pub width: usize,
    pub height: usize,
    pub resizable: SizeHint,
}

impl QuarkConfig {
    /// A fresh configuration with the default title, an 800 by 600
    /// window, and maximum-bound resizing.
    pub fn new() -> (r: QuarkConfig)
        ensures
            r.title@ == "Quark Application"@,
            r.width == 800,
            r.height == 600,
            r.resizable == SizeHint::MAX,
    {
        QuarkConfig {
            title: "Quark Application".to_owned(),
            width: 800,
            height: 600,
            resizable: SizeHint::MAX,
        }
    }

    /// Sets the window title the operating system is given.
    pub fn title(self, title: &str) -> (r: QuarkConfig)
        ensures
            r.title@ == title@,
            r.width == self.width,
            r.height == self.height,
            r.resizable == self.resizable,
    {
        QuarkConfig {
            title: title.to_owned(),
            width: self.width,
            height: self.height,
            resizable: self.resizable,
        }
    }

    /// Sets the width the webview renders at.
    pub fn width(self, width: usize) -> (r: QuarkConfig)
        ensures
            r.title@ == self.title@,
            r.width == width,
            r.height == self.height,
            r.resizable == self.resizable,
    {
        QuarkConfig { title: self.title, width, height: self.height, resizable: self.resizable }
    }

    /// Sets the height the webview renders at.
    pub fn height(self, height: usize) -> (r: QuarkConfig)
        ensures
            r.title@ == self.title@,
            r.width == self.width,
            r.height == height,
            r.resizable == self.resizable,
    {
        QuarkConfig { title: self.title, width: self.width, height, resizable: self.resizable }
    }

    /// Sets the resize condition of the application window.
    pub fn resizable(self, resizable: SizeHint) -> (r: QuarkConfig)
        ensures
            r.title@ == self.title@,
            r.width == self.width,
            r.height == self.height,
            r.resizable == resizable,
    {
        QuarkConfig { title: self.title, width: self.width, height: self.height, resizable }
    }
}

impl Default for QuarkConfig {
    /// Identical to `QuarkConfig::new`.
    fn default() -> (r: QuarkConfig)
        ensures
            r.title@ == "Quark Application"@,
            r.width == 800,
            r.height == 600,
            r.resizable == SizeHint::MAX,
    {
        QuarkConfig::new()
    }
}

} // verus!
