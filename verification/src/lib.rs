//! Command bridge between a desktop shell and an external analytics engine.
//!
//! The shell issues typed requests; this crate encodes each request into a
//! stable command-line argument protocol, models the resolution of an
//! available launcher for the engine process, and classifies the engine's
//! exit status and captured streams into a parsed JSON value or a typed
//! failure. The engine itself (statistics, rendering, persistence) is an
//! external collaborator: the bridge only knows its invocation contract and
//! output conventions.

pub mod request;
pub mod encode;
pub mod decode;
pub mod launch;
pub mod classify;
