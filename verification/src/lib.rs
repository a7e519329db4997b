//! The harmonic-mean orchestrator: the decisions of the `srvcs-harmonicmean`
//! service, which computes the harmonic mean of a list of numbers by asking
//! three arithmetic services, and the configuration it starts from.

pub mod api;
pub mod config;
