//! The command/extension transaction binding: which extension types are
//! legal companions to which base commands, and the attach step that
//! rebinds a command to carry one extension and expect that extension's
//! declared response type.
//!
//! Attaching is a value transformation and a one-shot rebind: a command
//! carries at most one extension, and attaching another replaces the typing
//! of the whole pair.  An undeclared pairing is rejected before any encode
//! occurs.

use vstd::prelude::*;

use crate::consolidate::{
    is_update_enc, is_update_with_namestore_enc, UpdateWithNameStore,
};
use crate::error::ConfigurationError;
use crate::namestore::{is_namestore_enc, NameStore};
use crate::rgp::{is_restore_update_enc, RgpRestoreRequest};
use crate::xml::XmlElement;

verus! {

/// The base commands this layer models.
#[derive(Debug, Clone, Copy, PartialEq, Eq, Structural)]
pub enum CommandKind {
    DomainCheck,
    DomainUpdate,
    DomainInfo,
    PollAck,
}

/// The extension identifiers of the tagged extension slot.
#[derive(Debug, Clone, Copy, PartialEq, Eq, Structural)]
pub enum ExtensionKind {
    NoExtension,
    NameStore,
    SyncUpdate,
    SyncUpdateWithNameStore,
    RgpRestore,
}

/// The response-extension types a decode may be typed to expect.
#[derive(Debug, Clone, Copy, PartialEq, Eq, Structural)]
pub enum ResponseKind {
    /// No extension section is expected in the answer.
    NoResponse,
    /// The answer's extension section decodes as a subproduct selector.
    NameStore,
    /// The answer's extension section decodes as the grace-period
    /// multi-shape response.
    RgpRequest,
}

/// A typed extension value in a command's extension slot.
#[derive(Debug, Clone, PartialEq, Eq)]
pub enum ExtensionValue {
    /// The sentinel "no extension" value: produces no extension section.
    NoExtension,
    NameStore(NameStore),
    SyncUpdate(crate::consolidate::Update),
    SyncUpdateWithNameStore(UpdateWithNameStore),
    RgpRestore(crate::rgp::Update<RgpRestoreRequest>),
}

/// The identifier of an extension value.
pub open spec fn spec_kind_of(e: ExtensionValue) -> ExtensionKind {
    match e {
        ExtensionValue::NoExtension => ExtensionKind::NoExtension,
        ExtensionValue::NameStore(_) => ExtensionKind::NameStore,
        ExtensionValue::SyncUpdate(_) => ExtensionKind::SyncUpdate,
        ExtensionValue::SyncUpdateWithNameStore(_) => ExtensionKind::SyncUpdateWithNameStore,
        ExtensionValue::RgpRestore(_) => ExtensionKind::RgpRestore,
    }
}

/// The declared command/extension compatibility relation.  The sentinel
/// accompanies every command; the expiry-sync extensions accompany the
/// domain update command; the restore extension accompanies the domain
/// update and domain info commands; the subproduct selector accompanies
/// the domain check and poll-acknowledge commands.
pub open spec fn spec_compatible(c: CommandKind, e: ExtensionKind) -> bool {
    match e {
        ExtensionKind::NoExtension => true,
        ExtensionKind::NameStore => c == CommandKind::DomainCheck || c == CommandKind::PollAck,
        ExtensionKind::SyncUpdate => c == CommandKind::DomainUpdate,
        ExtensionKind::SyncUpdateWithNameStore => c == CommandKind::DomainUpdate,
        ExtensionKind::RgpRestore => c == CommandKind::DomainUpdate || c == CommandKind::DomainInfo,
    }
}

/// The response-extension type an extension's answer decodes as: fixed by
/// the extension identifier alone, never by the command it travels with.
pub open spec fn spec_response_kind(e: ExtensionKind) -> ResponseKind {
    match e {
        ExtensionKind::NoExtension => ResponseKind::NoResponse,
        ExtensionKind::NameStore => ResponseKind::NameStore,
        ExtensionKind::SyncUpdate => ResponseKind::NoResponse,
        ExtensionKind::SyncUpdateWithNameStore => ResponseKind::NameStore,
        ExtensionKind::RgpRestore => ResponseKind::RgpRequest,
    }
}

impl ExtensionValue {
    /// The identifier of this extension value.
    pub fn kind(&self) -> (r: ExtensionKind)
        ensures
            r == spec_kind_of(*self),
    {
        match self {
            ExtensionValue::NoExtension => ExtensionKind::NoExtension,
            ExtensionValue::NameStore(_) => ExtensionKind::NameStore,
            ExtensionValue::SyncUpdate(_) => ExtensionKind::SyncUpdate,
            ExtensionValue::SyncUpdateWithNameStore(_) => ExtensionKind::SyncUpdateWithNameStore,
            ExtensionValue::RgpRestore(_) => ExtensionKind::RgpRestore,
        }
    }
}

/// Whether the pairing is declared compatible.
pub fn compatible(c: CommandKind, e: ExtensionKind) -> (r: bool)
    ensures
        r == spec_compatible(c, e),
{
    match e {
        ExtensionKind::NoExtension => true,
        ExtensionKind::NameStore => matches!(c, CommandKind::DomainCheck | CommandKind::PollAck),
        ExtensionKind::SyncUpdate => matches!(c, CommandKind::DomainUpdate),
        ExtensionKind::SyncUpdateWithNameStore => matches!(c, CommandKind::DomainUpdate),
        ExtensionKind::RgpRestore => matches!(
            c,
            CommandKind::DomainUpdate | CommandKind::DomainInfo,
        ),
    }
}

/// The response-extension type the answer to an extension decodes as.
pub fn response_kind(e: ExtensionKind) -> (r: ResponseKind)
    ensures
        r == spec_response_kind(e),
{
    match e {
        ExtensionKind::NoExtension => ResponseKind::NoResponse,
        ExtensionKind::NameStore => ResponseKind::NameStore,
        ExtensionKind::SyncUpdate => ResponseKind::NoResponse,
        ExtensionKind::SyncUpdateWithNameStore => ResponseKind::NameStore,
        ExtensionKind::RgpRestore => ResponseKind::RgpRequest,
    }
}

/// A base command together with its tagged extension slot.
#[derive(Debug, Clone, PartialEq, Eq)]
pub struct Command {
    pub kind: CommandKind,
    pub extension: ExtensionValue,
}

/// The shape of the extension section wrapper: one `extension` element
/// holding exactly the extension's own fragment, nothing else.
pub open spec fn is_extension_wrapper(w: XmlElement) -> bool {
    &&& w.name@ == "extension"@
    &&& w.attrs@.len() == 0
    &&& w.text is None
    &&& w.children@.len() == 1
}

impl Command {
    /// A base command with an empty extension slot.
    pub fn new(kind: CommandKind) -> (r: Command)
        ensures
            r.kind == kind,
            r.extension == ExtensionValue::NoExtension,
    {
        Command { kind, extension: ExtensionValue::NoExtension }
    }

    /// Attaches `ext`, rejecting an undeclared pairing before any encode
    /// occurs.  On success the new command carries `ext` in place of
    /// whatever the slot held and is tagged to expect `ext`'s declared
    /// response type.
    pub fn attach(self, ext: ExtensionValue) -> (r: Result<Command, ConfigurationError>)
        ensures
            spec_compatible(self.kind, spec_kind_of(ext)) ==> r == Ok::<
                Command,
                ConfigurationError,
            >(Command { kind: self.kind, extension: ext }),
            !spec_compatible(self.kind, spec_kind_of(ext)) ==> r == Err::<
                Command,
                ConfigurationError,
            >(ConfigurationError::IncompatibleExtension),
    {
        if compatible(self.kind, ext.kind()) {
            Ok(Command { kind: self.kind, extension: ext })
        } else {
            Err(ConfigurationError::IncompatibleExtension)
        }
    }

    /// The response-extension type this command's answer is typed to
    /// expect: a property of the attached extension alone.
    pub fn expected_response(&self) -> (r: ResponseKind)
        ensures
            r == spec_response_kind(spec_kind_of(self.extension)),
    {
        response_kind(self.extension.kind())
    }

    /// Encodes the extension section of this command: nothing for the
    /// sentinel, else one `extension` wrapper holding exactly the
    /// extension's encoded fragment.
    pub fn encode_extension_section(&self) -> (r: Option<XmlElement>)
        ensures
            match self.extension {
                ExtensionValue::NoExtension => r is None,
                ExtensionValue::NameStore(ns) => r matches Some(w) && is_extension_wrapper(w)
                    && is_namestore_enc(
                    w.children@[0],
                    ns.data.xmlns@,
                    ns.data.subproduct@,
                    true,
                ),
                ExtensionValue::SyncUpdate(u) => r matches Some(w) && is_extension_wrapper(w)
                    && is_update_enc(w.children@[0], u.exp@, false),
                ExtensionValue::SyncUpdateWithNameStore(u) => r matches Some(w)
                    && is_extension_wrapper(w) && is_update_with_namestore_enc(
                    w.children@[0],
                    u.sync.exp@,
                    u.namestore.data.xmlns@,
                    u.namestore.data.subproduct@,
                    false,
                    true,
                ),
                ExtensionValue::RgpRestore(u) => r matches Some(w) && is_extension_wrapper(w)
                    && is_restore_update_enc(w.children@[0], u.data.op@, true),
            },
    {
        let fragment = match &self.extension {
            ExtensionValue::NoExtension => {
                return None;
            },
            ExtensionValue::NameStore(ns) => ns.encode(),
            ExtensionValue::SyncUpdate(u) => u.encode(),
            ExtensionValue::SyncUpdateWithNameStore(u) => u.encode(),
            ExtensionValue::RgpRestore(u) => u.encode(),
        };
        let mut children: Vec<XmlElement> = Vec::new();
        children.push(fragment);
        Some(XmlElement::node_elem("extension", Vec::new(), children))
    }
}

} // verus!
