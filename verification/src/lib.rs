//! Bootstrap planning for a small cluster of control hosts and workers.
//!
//! The library decides and the caller acts. From the description of the
//! cluster it derives the certificate requests of every role, the text of
//! the configuration files, what to prepare for each phase and what to ask
//! of each host; it keeps the phases in the order their dependencies demand,
//! holds each phase at a barrier until all its hosts are done, and watches
//! for the join request that lets the workers in. Running commands, copying
//! files and signing certificates are left to the caller.

pub mod text;
pub mod config;
pub mod pki;
pub mod render;
pub mod fixed;
pub mod orchestrator;
pub mod fanout;
pub mod gateway;
pub mod plan;
pub mod prepare;
pub mod join;
pub mod command;
