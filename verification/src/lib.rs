//! Remote build-and-run loop: the decisions of both roles, verified.
//!
//! The *sender* guards one build artifact: when the artifact changes it
//! strips it, compresses it and ships it to a runner. The *receiver* accepts
//! one transfer at a time, stores it as an executable and runs it.
//!
//! This crate holds everything the two roles decide and compute. Waiting for
//! file-system notifications, spawning processes and moving bytes over sockets
//! is left to the caller: each pipeline is a state machine that is handed the
//! outcome of the previous operation and answers with the next one to perform.

pub mod cli;
pub mod codec;
pub mod config;
pub mod failure;
pub mod paths;
pub mod receiver;
pub mod sender;
pub mod watch;
