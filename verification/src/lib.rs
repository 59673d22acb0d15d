//! A composable request-handling pipeline for HTTP-shaped traffic.
//!
//! Streaming request and response bodies travel as ordered frames through
//! bounded frame channels; middleware wrappers are composed around a terminal
//! handler with strict enter/exit nesting; a host bridge drives one whole
//! exchange from an inbound body to an outbound sink, releasing response
//! headers before the body has been drained.

pub mod frame;
pub mod channel;
pub mod body;
pub mod message;
pub mod handler;
pub mod pipeline;
pub mod bridge;
pub mod matcher;
