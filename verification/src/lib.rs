//! Client-side model of a session with the Proxmox VE management API.
//!
//! The crate decides what is sent and what a reply means: which parameters a
//! login needs, which headers each request carries, how a path is resolved
//! against the base endpoint, and how the `data` envelope of a reply is
//! opened. Moving bytes over the network is left to the caller: every
//! operation either yields a [`Request`] to send or takes the outcome of
//! sending one.

pub mod client;
pub mod codec;
pub mod envelope;
pub mod method;
pub mod request;
pub mod resources;

pub use client::{Client, ClientBuilder, ClientBuildingError};
pub use envelope::{RequestError, TokenResponse};
pub use method::Method;
pub use request::{Header, Request};
