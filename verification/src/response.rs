//! The response envelope: result code, human-readable message, the
//! client/server transaction-id pair, and an optional decoded response
//! extension.
//!
//! The envelope fields decode unconditionally; an extension section is
//! decoded only where the `extension` wrapper is present in the document,
//! with the response-extension type the outbound command was tagged to
//! expect.  Absence of the wrapper yields no extension, never an error.

use vstd::prelude::*;

use crate::binding::ResponseKind;
use crate::error::ParseError;
use crate::namestore::{spec_dec_namestore, NameStore};
use crate::rgp::{rgp_response_matches, spec_rgp_resolvable, RgpRequestResponse, Update};
use crate::strutil::{parse_u16, spec_all_digits, spec_uint_val};
use crate::xml::{name_matches, spec_find_attr, spec_find_child, XmlElement};

verus! {

/// The result of a command: a numeric code and its human-readable message.
#[derive(Debug, Clone, PartialEq, Eq)]
pub struct EppResult {
    pub code: u16,
    pub message: String,
}

/// The transaction-id pair of a response: the client's identifier, when
/// the command carried one, and the server's.
#[derive(Debug, Clone, PartialEq, Eq)]
pub struct TrIds {
    pub client_tr_id: Option<String>,
    pub server_tr_id: String,
}

/// A decoded response extension, typed by what the outbound command was
/// tagged to expect.
#[derive(Debug, Clone, PartialEq, Eq)]
pub enum ResponseExtensionValue {
    NameStore(NameStore),
    RgpRequest(Update<RgpRequestResponse>),
}

/// A decoded response envelope, constructed fresh per call and owned by
/// the caller.
#[derive(Debug, Clone, PartialEq, Eq)]
pub struct ResponseEnvelope {
    pub result: EppResult,
    pub tr_ids: TrIds,
    pub extension: Option<ResponseExtensionValue>,
}

/// The envelope fields a well-formed response document carries.
pub struct EnvelopeFields {
    pub code: int,
    pub message: Seq<char>,
    pub client_tr_id: Option<Seq<char>>,
    pub server_tr_id: Seq<char>,
}

/// The `response` element of a document, under the protocol root.
pub open spec fn spec_response_elem(doc: XmlElement) -> Option<XmlElement> {
    if name_matches(doc.name@, "epp"@, "epp"@) {
        spec_find_child(doc.children@, "response"@, "response"@)
    } else {
        None
    }
}

/// What decoding the envelope fields of a document yields: result code
/// within the 16-bit range, message text, optional client and mandatory
/// server transaction-id, or nothing where a required part is absent.
pub open spec fn spec_dec_envelope(doc: XmlElement) -> Option<EnvelopeFields> {
    match spec_response_elem(doc) {
        Some(resp) => match spec_find_child(resp.children@, "result"@, "result"@) {
            Some(res) => match spec_find_attr(res.attrs@, "code"@, "code"@) {
                Some(ct) => if ct.len() > 0 && spec_all_digits(ct) && spec_uint_val(ct)
                    <= u16::MAX {
                    match spec_find_child(res.children@, "msg"@, "msg"@) {
                        Some(m) => match m.text {
                            Some(msg) => match spec_find_child(resp.children@, "trID"@, "trID"@) {
                                Some(tr) => match spec_find_child(
                                    tr.children@,
                                    "svTRID"@,
                                    "svTRID"@,
                                ) {
                                    Some(sv) => match sv.text {
                                        Some(svt) => Some(
                                            EnvelopeFields {
                                                code: spec_uint_val(ct),
                                                message: msg@,
                                                client_tr_id: match spec_find_child(
                                                    tr.children@,
                                                    "clTRID"@,
                                                    "clTRID"@,
                                                ) {
                                                    Some(cl) => match cl.text {
                                                        Some(t) => Some(t@),
                                                        None => None,
                                                    },
                                                    None => None,
                                                },
                                                server_tr_id: svt@,
                                            },
                                        ),
                                        None => None,
                                    },
                                    None => None,
                                },
                                None => None,
                            },
                            None => None,
                        },
                        None => None,
                    }
                } else {
                    None
                },
                None => None,
            },
            None => None,
        },
        None => None,
    }
}

/// The extension fragment of a document: the first child of the
/// `extension` wrapper, where the wrapper is present and holds one.
pub open spec fn spec_ext_fragment(doc: XmlElement) -> Option<XmlElement> {
    match spec_response_elem(doc) {
        Some(resp) => match spec_find_child(resp.children@, "extension"@, "extension"@) {
            Some(w) => if w.children@.len() >= 1 {
                Some(w.children@[0])
            } else {
                None
            },
            None => None,
        },
        None => None,
    }
}

/// Whether a decoded extension slot is exactly what the document's
/// extension fragment yields under the expected response type: nothing
/// where no fragment is present or none is expected, else the typed decode
/// of the fragment.
pub open spec fn ext_slot_matches(
    expected: ResponseKind,
    doc: XmlElement,
    slot: Option<ResponseExtensionValue>,
) -> bool {
    match spec_ext_fragment(doc) {
        None => slot is None,
        Some(frag) => match expected {
            ResponseKind::NoResponse => slot is None,
            ResponseKind::NameStore => slot matches Some(ResponseExtensionValue::NameStore(ns))
                && spec_dec_namestore(frag) == Some((ns.data.xmlns@, ns.data.subproduct@)),
            ResponseKind::RgpRequest => slot matches Some(ResponseExtensionValue::RgpRequest(u))
                && name_matches(frag.name@, "rgp:update"@, "update"@) && frag.children@.len() >= 1
                && rgp_response_matches(frag.children@[0], u.data),
        },
    }
}

/// Whether the typed decode of the document's extension fragment fails
/// under the expected response type.
pub open spec fn ext_decode_fails(expected: ResponseKind, doc: XmlElement) -> bool {
    match spec_ext_fragment(doc) {
        None => false,
        Some(frag) => match expected {
            ResponseKind::NoResponse => false,
            ResponseKind::NameStore => spec_dec_namestore(frag) is None,
            ResponseKind::RgpRequest => !name_matches(frag.name@, "rgp:update"@, "update"@)
                || frag.children@.len() == 0 || !spec_rgp_resolvable(frag.children@[0]),
        },
    }
}

/// Decodes a response document into its envelope, decoding the extension
/// section, where present, as the response type the outbound command was
/// tagged to expect.
pub fn decode_response(doc: &XmlElement, expected: ResponseKind) -> (r: Result<
    ResponseEnvelope,
    ParseError,
>)
    ensures
        match r {
            Ok(env) => {
                &&& spec_dec_envelope(*doc) matches Some(f) && env.result.code as int == f.code
                    && env.result.message@ == f.message && env.tr_ids.server_tr_id@
                    == f.server_tr_id && match (env.tr_ids.client_tr_id, f.client_tr_id) {
                    (Some(a), Some(b)) => a@ == b,
                    (None, None) => true,
                    _ => false,
                }
                &&& ext_slot_matches(expected, *doc, env.extension)
            },
            Err(_) => spec_dec_envelope(*doc) is None || ext_decode_fails(expected, *doc),
        },
{
    if !doc.has_name("epp", "epp") {
        return Err(ParseError::UnexpectedElement(doc.name.clone()));
    }
    let resp = match doc.find_child("response", "response") {
        Some(c) => c,
        None => {
            return Err(ParseError::MissingElement("response".to_owned()));
        },
    };
    let res = match resp.find_child("result", "result") {
        Some(c) => c,
        None => {
            return Err(ParseError::MissingElement("result".to_owned()));
        },
    };
    let code_text = match res.find_attr("code", "code") {
        Some(v) => v,
        None => {
            return Err(ParseError::MissingAttribute("code".to_owned()));
        },
    };
    let code = match parse_u16(code_text.as_str()) {
        Some(v) => v,
        None => {
            return Err(ParseError::InvalidText(code_text.clone()));
        },
    };
    let msg_elem = match res.find_child("msg", "msg") {
        Some(c) => c,
        None => {
            return Err(ParseError::MissingElement("msg".to_owned()));
        },
    };
    let message = match &msg_elem.text {
        Some(t) => t.clone(),
        None => {
            return Err(ParseError::MissingText("msg".to_owned()));
        },
    };
    let tr_elem = match resp.find_child("trID", "trID") {
        Some(c) => c,
        None => {
            return Err(ParseError::MissingElement("trID".to_owned()));
        },
    };
    let sv_elem = match tr_elem.find_child("svTRID", "svTRID") {
        Some(c) => c,
        None => {
            return Err(ParseError::MissingElement("svTRID".to_owned()));
        },
    };
    let server_tr_id = match &sv_elem.text {
        Some(t) => t.clone(),
        None => {
            return Err(ParseError::MissingText("svTRID".to_owned()));
        },
    };
    let client_tr_id: Option<String> = match tr_elem.find_child("clTRID", "clTRID") {
        Some(cl) => match &cl.text {
            Some(t) => Some(t.clone()),
            None => None,
        },
        None => None,
    };
    let extension: Option<ResponseExtensionValue> = match resp.find_child(
        "extension",
        "extension",
    ) {
        Some(w) => {
            if w.children.len() >= 1 {
                match expected {
                    ResponseKind::NoResponse => None,
                    ResponseKind::NameStore => {
                        match NameStore::decode(&w.children[0]) {
                            Ok(ns) => Some(ResponseExtensionValue::NameStore(ns)),
                            Err(err) => {
                                return Err(err);
                            },
                        }
                    },
                    ResponseKind::RgpRequest => {
                        match Update::<RgpRequestResponse>::decode(&w.children[0]) {
                            Ok(u) => Some(ResponseExtensionValue::RgpRequest(u)),
                            Err(err) => {
                                return Err(err);
                            },
                        }
                    },
                }
            } else {
                None
            }
        },
        None => None,
    };
    Ok(
        ResponseEnvelope {
            result: EppResult { code, message },
            tr_ids: TrIds { client_tr_id, server_tr_id },
            extension,
        },
    )
}

} // verus!
