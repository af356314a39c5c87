//! A deterministic simulation testing harness for networked services.
//!
//! A scenario (one or more simulated hosts and clients plus a fault
//! generator) is executed many times against a virtual clock and a virtual
//! TCP network, with every source of randomness derived from a single seed,
//! so that any failing run can be replayed verbatim from its seed.
//!
//! This crate holds the deterministic core: the seeded random number
//! generator, the virtual clock and step counter, cancellation scopes, the
//! per-run configuration, the interaction plans that drive protocol clients,
//! the sample banking service's state machine and wire format, and the
//! decision logic of the per-run driver and the multi-run orchestrator.
//! The surrounding process (threads, sockets, the virtual network engine)
//! feeds events into these functions and performs the actions they return.

pub mod bank;
pub mod banker;
pub mod config;
pub mod env;
pub mod fault_injector;
pub mod futures;
pub mod health_checker;
pub mod http;
pub mod link;
pub mod message;
pub mod money;
pub mod orchestrator;
pub mod plan;
pub mod report;
pub mod rng;
pub mod runner;
pub mod scenario;
pub mod server;
pub mod text;
pub mod vfs;
