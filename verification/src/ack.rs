//! The message-acknowledge command: a `poll` element with the fixed
//! operation token `"ack"` and a message identifier, accepted as a native
//! integer and encoded as decimal text on the wire.  This is a request-only
//! type: nothing decodes it back.

use vstd::prelude::*;

use crate::request::{EppExtension, NoExtension};
use crate::strutil::{spec_udec, u32_dec_string};
use crate::xml::{attr, XmlAttr, XmlElement};

verus! {

/// A message-acknowledge command, with room for one typed extension.
#[derive(Debug, Clone, PartialEq, Eq)]
pub struct MessageAck<E> {
    pub request: MessageAckRequest,
    pub extension: Option<E>,
}

/// The wire payload of the message-acknowledge command.
#[derive(Debug, Clone, PartialEq, Eq)]
pub struct MessageAckRequest {
    /// The operation to perform; `"ack"` for message acknowledgement.
    pub op: String,
    /// The identifier of the message to acknowledge, as decimal text.
    pub message_id: String,
}

/// Exact shape of an encoded message-acknowledge command: one `poll`
/// element whose `op` attribute carries the operation token, with a single
/// `msgID` child carrying the identifier text.
pub open spec fn is_poll_ack_enc(e: XmlElement, op: Seq<char>, message_id: Seq<char>) -> bool {
    &&& e.name@ == "poll"@
    &&& e.attrs@.len() == 1
    &&& e.attrs@[0].name@ == "op"@
    &&& e.attrs@[0].value@ == op
    &&& e.text is None
    &&& e.children@.len() == 1
    &&& e.children@[0].name@ == "msgID"@
    &&& e.children@[0].attrs@.len() == 0
    &&& e.children@[0].children@.len() == 0
    &&& e.children@[0].text matches Some(t) && t@ == message_id
}

impl<E: EppExtension> MessageAck<E> {
    /// Builds an acknowledgement of the message with the given identifier:
    /// the operation token is `"ack"`, the identifier becomes decimal
    /// text, and no extension is attached.
    pub fn new(message_id: u32) -> (r: MessageAck<NoExtension>)
        ensures
            r.request.op@ == "ack"@,
            r.request.message_id@ == spec_udec(message_id as int),
            r.extension is None,
    {
        MessageAck {
            request: MessageAckRequest {
                op: "ack".to_owned(),
                message_id: u32_dec_string(message_id),
            },
            extension: None,
        }
    }

    /// Rebinds the command to carry `extension`, replacing whatever the
    /// slot held and retyping the expected response accordingly.
    pub fn with_extension<F: EppExtension>(self, extension: F) -> (r: MessageAck<F>)
        ensures
            r.request == self.request,
            r.extension == Some(extension),
    {
        MessageAck { request: self.request, extension: Some(extension) }
    }

    /// Splits the command into its wire payload and its extension slot.
    pub fn into_parts(self) -> (r: (MessageAckRequest, Option<E>))
        ensures
            r.0 == self.request,
            r.1 == self.extension,
    {
        (self.request, self.extension)
    }
}

impl MessageAckRequest {
    /// Encodes the command as a `poll` element with the operation token in
    /// its `op` attribute and the identifier text in a `msgID` child.
    pub fn encode(&self) -> (r: XmlElement)
        ensures
            is_poll_ack_enc(r, self.op@, self.message_id@),
    {
        let mut attrs: Vec<XmlAttr> = Vec::new();
        attrs.push(attr("op", self.op.as_str()));
        let mut children: Vec<XmlElement> = Vec::new();
        children.push(XmlElement::text_elem("msgID", self.message_id.as_str()));
        XmlElement::node_elem("poll", attrs, children)
    }
}

} // verus!
