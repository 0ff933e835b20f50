//! Safe, verified core around raw Unix system-call conventions.
//!
//! The crate owns the logic that sits between a caller and the raw OS
//! boundary: ownership-tracked descriptor handles, translation of raw
//! return words into typed outcomes, the argument checks and result
//! models of the readiness multiplexers (flat poll, change/event queue,
//! event port, counter object), and the growable-buffer retry protocol.
//! The raw system calls themselves are issued by an unverified shell
//! that feeds their return words into the functions here.

pub mod buffer;
pub mod conv;
pub mod eventfd;
pub mod fd;
pub mod io;
pub mod kqueue;
pub mod poll;
pub mod port;
pub mod time;
pub mod ugid;
