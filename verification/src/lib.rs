//! Provisioning, fault classification and orchestration rules for fuzzing
//! software that runs inside a full-system simulator.
//!
//! Everything here works on plain values. Walking directories, copying files,
//! spawning the simulator and talking to it are left to the caller, which hands
//! the observations in and carries the decisions out.

pub mod bridge;
pub mod campaign;
pub mod effect;
pub mod error;
pub mod fault;
pub mod library;
pub mod pattern;
pub mod store;
pub mod text;
pub mod tree;
pub mod worker;
pub mod workspace;
