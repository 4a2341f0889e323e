//! The typed extension slot of a request: an extension type declares its
//! own expected response-extension type, fixed per extension type alone and
//! never varying by the command it travels with.

use vstd::prelude::*;

use crate::namestore::NameStore;

verus! {

/// An extension that may accompany a base command.  The associated type is
/// the response-extension type the registry's answer decodes as; it is a
/// property of the extension type alone.
pub trait EppExtension {
    type Response;
}

/// The sentinel "no extension" value: distinct from an absent slot only in
/// the type system — neither produces an extension section on the wire.
#[derive(Debug, Clone, Copy, PartialEq, Eq, Structural)]
pub struct NoExtension;

impl EppExtension for NoExtension {
    type Response = NoExtension;
}

impl EppExtension for NameStore {
    type Response = NameStore;
}

} // verus!
