//! Verified core of a host metrics agent: a fixed-cadence scheduler samples
//! live metrics, merges them with slowly-refreshing auxiliary data from a
//! shared cache into one record per tick, and hands the encoded record to a
//! push (HTTP) or RPC channel. The surrounding process (argument parsing,
//! sampler backends, the network calls themselves) lives outside this crate
//! and exchanges plain values with it.

pub mod assemble;
pub mod cache;
pub mod encode;
pub mod model;
pub mod scheduler;
pub mod startup;
pub mod text;
pub mod transport;
