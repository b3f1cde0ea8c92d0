//! The verified core of a small embeddable HTTP service.
//!
//! A host process starts the service through one foreign entry point. The
//! entry point hands the work to a thread of its own and returns at once; on
//! that thread a listener is bound to a fixed loopback address and answers
//! every request with the same greeting.
//!
//! This crate holds what the service decides: the answer to a request
//! ([`handler`]), the address it listens on ([`address`]) and the course of a
//! service instance from its launch to its accept loop ([`lifecycle`]). The
//! thread, the scheduler and the sockets belong to the program around it.

pub mod address;
pub mod handler;
pub mod lifecycle;
pub mod message;
