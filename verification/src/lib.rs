//! Verified core of a browser-shell bridge: a keyboard-shortcut
//! interceptor layered in front of an opaque inner application, and a
//! navigation handoff channel that stages a pending (content, location)
//! pair until the next event-processing cycle applies it.
//!
//! The windowing event loop, the rendering engine, and the host
//! callbacks that supply replacement content are outside collaborators;
//! this crate holds the decisions made around them: which events are
//! consumed, what the effective navigation target is, how undecodable
//! content is replaced by a diagnostic placeholder, and how the shared
//! navigation state evolves.

pub mod boundary;
pub mod content;
pub mod keys;
pub mod nav;
pub mod resolve;
pub mod shell;
