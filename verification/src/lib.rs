//! Fixed-window request throttling for an HTTP handler chain.
//!
//! Every client is identified by an opaque key taken from a request header.
//! Requests are counted per key inside one window shared by all clients; a
//! client that exceeds the quota inside the current window is refused until
//! the window rolls over, at which point every count starts again from zero.

pub mod window;
pub mod store;
pub mod client;
pub mod clock;
pub mod limiter;
pub mod history;
pub mod error;
