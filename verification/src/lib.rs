//! Core logic of an experiment driver for kernel-level memory-management
//! research.
//!
//! The library captures everything about an experiment run that can be decided
//! before and independently of the remote host: the configuration model and
//! its validation, the deterministic naming of output files, the rewrite of
//! kernel boot parameters, the allocation of processor cores, the layered
//! command-prefix plan, and the exact command lines of each benchmark
//! workload.  A thin unverified driver feeds raw command-line input in and
//! executes the resulting remote commands over a shell transport.

pub mod backend;
pub mod bootcfg;
pub mod config;
pub mod errors;
pub mod naming;
pub mod numfmt;
pub mod plan;
pub mod proportion;
pub mod sequencer;
pub mod strutil;
pub mod taskset;
pub mod validate;
pub mod workloads;
