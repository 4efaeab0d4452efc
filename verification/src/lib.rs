//! A uniform handle over native web-rendering engines.
//!
//! A host picks one engine binding, builds a [`WebView`] on a raw window handle,
//! checks that the binding suits the running target, and then drives the engine
//! through three commands: evaluate a script, inject a stylesheet, load a document.
pub mod binding;
pub mod error;
pub mod recording;
pub mod target;
pub mod webview;
