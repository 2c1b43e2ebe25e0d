//! A peer-to-peer file sharing core: a typed command protocol, a
//! single-owner event loop that correlates asynchronous network outcomes
//! back to their callers, and a length-prefixed wire codec for file
//! exchange over a named protocol.

pub mod behaviour;
pub mod client;
pub mod command;
pub mod event_loop;
pub mod protocol;
