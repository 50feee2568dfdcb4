//! Verified core of a terminal image viewer: command-line value parsing,
//! terminal escape-sequence framing for the Kitty graphics protocol and
//! multiplexer passthrough, input gesture translation, format sniffing and
//! status-line layout.

pub mod cli;
pub mod decoder;
pub mod text;
pub mod display;
pub mod input;
pub mod watcher;
