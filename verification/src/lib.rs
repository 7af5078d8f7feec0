//! A framework for integrating payment connectors.
//!
//! A hub speaks one internal language for payments and talks to many
//! processors, each with an API of its own. This crate holds what the hub
//! relies on whichever processor is at the other end:
//!
//! - [`enums`]: the closed registry of connectors, their wire names and
//!   their capabilities, and the narrower sets derived from it;
//! - [`flows`]: the catalog of operations that a connector may be asked for;
//! - [`types`]: the envelope that carries one flow's request and response,
//!   and the normalised shapes of answers and errors;
//! - [`request`] and [`masking`]: the description of an outbound request,
//!   and the redacted snapshot of it that may be recorded;
//! - [`api`]: the contract that every adapter fulfils, with the fallbacks
//!   that an adapter inherits for what it does not support;
//! - [`connector`]: the adapters;
//! - [`events`]: the sink for redacted snapshots;
//! - [`json`] and [`text`]: reading bodies.
//!
//! Nothing here performs I/O. An adapter describes the request to send and
//! reads the answer that was received; sending and logging belong to the
//! caller.

pub mod api;
pub mod configs;
pub mod connector;
pub mod consts;
pub mod enums;
pub mod errors;
pub mod events;
pub mod flows;
pub mod headers;
pub mod json;
pub mod masking;
pub mod request;
pub mod text;
pub mod types;
