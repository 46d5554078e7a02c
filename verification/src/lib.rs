//! Core of a point-to-point network throughput probe.
//!
//! A client streams fixed-size chunks of random data to a server at maximum
//! rate for a configured duration, optionally with the server echoing every
//! chunk back, while both ends periodically sample cumulative chunk counters
//! to produce a time series of observed throughput.
//!
//! This crate holds the verified measurement and session logic: the
//! generator's deadline-bound send loop, the consumer's read/echo loop, the
//! periodic sampler and its one-shot stop signal, and the orchestration rules
//! that combine the outcomes of the concurrently running tasks. Sockets,
//! timers and task scheduling live outside; they feed the functions here with
//! plain values (elapsed clock readings, delivered bytes, counter snapshots).

pub mod measurement;
pub mod measurer;
pub mod reader;
pub mod receiver;
pub mod sender;
pub mod session;
