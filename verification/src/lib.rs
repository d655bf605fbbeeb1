//! A typed bridge between a sandboxed contract and a host-provided
//! fungible-token ledger.
//!
//! The library has two layers. The extension gate ([`gate`]) defines the
//! fixed catalogue of thirteen host operations: each one is identified by a
//! 16-bit selector, serializes its arguments in a fixed order, and decodes
//! the host's status code into success, a typed [`error::Psp22Error`], or a
//! [`error::ProtocolViolation`] when the two sides have diverged from the
//! agreed protocol. The asset facade ([`facade::MyPSP22`]) binds one asset
//! identifier at construction and re-exposes every gate operation as a
//! standard token interface, collapsing the failure of the three bare-value
//! queries to zero.
//!
//! The host itself is reached through the [`host::Host`] trait: a single
//! narrow interface `call(selector, input) -> (status, output)`.

pub mod codec;
pub mod error;
pub mod facade;
pub mod gate;
pub mod host;
pub mod types;
