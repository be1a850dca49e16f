//! Application-bundling core: classification of application categories,
//! resolution of bundle settings from project metadata, and lazy expansion
//! of resource path patterns, together with the small pure data types of
//! the surrounding application (configuration, CLI arguments, the webview
//! builder state).

pub mod args;
pub mod builder;
pub mod category;
pub mod config;
pub mod error;
pub mod pathutil;
pub mod resolver;
pub mod settings;
pub mod strutil;
