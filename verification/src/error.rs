//! Error types of the bundling subsystem and of the surrounding
//! application.

use vstd::prelude::*;

verus! {

/// A failure of the bundling subsystem.
///
/// The variants follow the error taxonomy of the design: configuration
/// errors abort the whole invocation, build errors carry the reason the
/// build step failed, filesystem errors are yielded per-resource by the
/// resolver, and platform-support errors report an operating system with
/// no native package type.
#[derive(Clone, Debug, PartialEq, Eq)]
pub enum BundleError {
    /// A malformed or incomplete bundle configuration; carries the detail.
    Config(String),
    /// The underlying build step failed; carries the captured reason.
    Build(String),
    /// A missing or unreadable resource path, a malformed glob pattern, or
    /// a directory where a plain file was expected; carries the detail.
    Filesystem(String),
    /// No native package type exists for this operating system; carries
    /// the operating-system name.
    UnsupportedOs(String),
}

/// A failure of the surrounding webview application.
#[derive(Clone, Copy, Debug, PartialEq, Eq, Structural)]
pub enum QuarkError {
    FrontendPathMissing,
    IncludeDirCouldntConvertToUTF8,
    ServerPortIsntAvailable,
    ServerError,
}

} // verus!
