//! Lifecycle tracking for the communication framework.

pub mod state;
