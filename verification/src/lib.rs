//! Extension/transaction binding and XML marshaling layer of a client for a
//! domain-registry provisioning protocol.
//!
//! A base command (check, update, info, poll-acknowledge) may travel with zero
//! or one vendor-specific extension block.  This crate models the typed
//! composition and codec contract: which extension types may accompany which
//! base commands, how a composite (command, extension) pair serializes into
//! one well-formed element tree with correct namespace declarations, how a
//! response fragment is decoded back into a typed value, and how a response
//! shape that can take two structurally different forms is resolved by
//! inspecting which tag is present.  Networking, session handshake and
//! transaction-id generation belong to an external transport collaborator and
//! are out of scope.

pub mod ack;
pub mod binding;
pub mod consolidate;
pub mod domain;
pub mod error;
pub mod render;
pub mod request;
pub mod response;
pub mod rgp;
pub mod strutil;
pub mod namestore;
pub mod xml;
