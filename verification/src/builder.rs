//! The webview builder state: the declarative description of a webview
//! window, assembled by chained setters.  Creating the native window out
//! of this state is the runtime's task, not the builder's.

use vstd::prelude::*;
use crate::config::SizeHint;

verus! {

/// The declarative state of a webview under construction: its title,
/// start URL, initialization and evaluation scripts, dimensions, resize
/// behaviour, and debug flag.
#[derive(Clone, Debug)]
pub struct WebviewBuilder {
    pub title: Option<String>,
    pub url: Option<String>,
    pub init: Option<String>,
    pub eval: Option<String>,
    pub width: usize,
    pub height: usize,
    pub resize: SizeHint,
    pub debug: bool,
}

impl WebviewBuilder {
    /// A fresh builder: nothing declared, zero dimensions, default
    /// resize hint, debugging off.
    pub fn new() -> (r: WebviewBuilder)
        ensures
            r.title is None,
            r.url is None,
            r.init is None,
            r.eval is None,
            r.width == 0,
            r.height == 0,
            r.resize == SizeHint::NONE,
            r.debug == false,
    {
        WebviewBuilder {
            title: None,
            url: None,
            init: None,
            eval: None,
            width: 0,
            height: 0,
            resize: SizeHint::NONE,
            debug: false,
        }
    }

    /// Turns webview debugging on or off.
    pub fn debug(self, debug: bool) -> (r: WebviewBuilder)
        ensures
            r == (WebviewBuilder { debug, ..self }),
    {
        WebviewBuilder { debug, ..self }
    }

    /// Declares the window title.
    pub fn title(self, title: &str) -> (r: WebviewBuilder)
        ensures
            r.title matches Some(t) && t@ == title@,
            r == (WebviewBuilder { title: r.title, ..self }),
    {
        WebviewBuilder { title: Some(title.to_owned()), ..self }
    }

    /// Declares the URL the webview navigates to.
    pub fn url(self, url: &str) -> (r: WebviewBuilder)
        ensures
            r.url matches Some(u) && u@ == url@,
            r == (WebviewBuilder { url: r.url, ..self }),
    {
        WebviewBuilder { url: Some(url.to_owned()), ..self }
    }

    /// Declares a script evaluated before the page loads.
    pub fn init(self, init: &str) -> (r: WebviewBuilder)
        ensures
            r.init matches Some(s) && s@ == init@,
            r == (WebviewBuilder { init: r.init, ..self }),
    {
        WebviewBuilder { init: Some(init.to_owned()), ..self }
    }

    /// Declares a script evaluated once the page has loaded.
    pub fn eval(self, eval: &str) -> (r: WebviewBuilder)
        ensures
            r.eval matches Some(s) && s@ == eval@,
            r == (WebviewBuilder { eval: r.eval, ..self }),
    {
        WebviewBuilder { eval: Some(eval.to_owned()), ..self }
    }

    /// Declares the window width.
    pub fn width(self, width: usize) -> (r: WebviewBuilder)
        ensures
            r == (WebviewBuilder { width, ..self }),
    {
        WebviewBuilder { width, ..self }
    }

    /// Declares the window height.
    pub fn height(self, height: usize) -> (r: WebviewBuilder)
        ensures
            r == (WebviewBuilder { height, ..self }),
    {
        WebviewBuilder { height, ..self }
    }

    /// Declares the resize condition of the window.
    pub fn resize(self, hint: SizeHint) -> (r: WebviewBuilder)
        ensures
            r == (WebviewBuilder { resize: hint, ..self }),
    {
        WebviewBuilder { resize: hint, ..self }
    }
}

} // verus!
