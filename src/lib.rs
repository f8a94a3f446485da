//! A relay between a browser extension speaking length-prefixed frames over
//! standard input/output and a desktop application speaking JSON envelopes
//! over a WebSocket, with a debug mirror and a window-focus resolver.
//!
//! - `frame`: the length-prefixed frames of the extension side.
//! - `envelope`: reading and building JSON envelopes.
//! - `registry`: which channel serves which browser connection.
//! - `hub`: the debug mirror's subscribers.
//! - `relay`: what each connection loop does with each socket event.
//! - `focus`: which window a focus request means.
//! - `identity`: the sidecar's connection id and browser label.
//! - `text`: substring tests, case folding, number formatting and parsing.

pub mod envelope;
pub mod focus;
pub mod frame;
pub mod hub;
pub mod identity;
pub mod registry;
pub mod relay;
pub mod text;
