//! A client for a relationship-based access control service that speaks the
//! OpenFGA protocol: it creates stores, publishes authorization models,
//! writes and deletes relationship tuples, and asks whether a relationship
//! holds.
//!
//! The crate performs no I/O. Each operation of the client in [`openfga`]
//! yields a [`transport::Exchange`]: the HTTP request to send, down to the
//! bytes of its body, together with the way to read what comes back. Sending
//! is the caller's part.
//!
//! Contracts speak of JSON documents as [`json::Json`] describes them. What
//! `serde_json` and `url` do for the crate is stated in [`json`] and
//! [`transport`] and is taken on trust; everything else is proved.

pub mod access;
pub mod error;
pub mod json;
pub mod model;
pub mod openfga;
pub mod relationship;
pub mod store;
pub mod transport;
