//! The connectors that the hub has an adapter for.

pub mod esnekpos;
