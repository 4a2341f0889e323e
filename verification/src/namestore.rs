//! The subproduct-selector extension: a single string field identifying a
//! registry sub-catalog, carried under the `namestoreExt` namespace.
//!
//! Every prefixed name used on encode also decodes in its bare form, so a
//! registry answering without the prefix is read the same way.

use vstd::prelude::*;

use crate::error::ParseError;
use crate::xml::{attr, name_matches, spec_find_attr, spec_find_child, XmlElement};

verus! {

/// Namespace URI of the subproduct-selector extension.
pub const XMLNS: &'static str = "http://www.verisign-grs.com/epp/namestoreExt-1.1";

/// The subproduct-selector extension.
#[derive(Debug, Clone, PartialEq, Eq)]
pub struct NameStore {
    pub data: NameStoreData,
}

/// The payload of the subproduct-selector extension: its namespace
/// declaration and the selected sub-catalog.
#[derive(Debug, Clone, PartialEq, Eq)]
pub struct NameStoreData {
    /// The namespace the extension's root element declares.
    pub xmlns: String,
    /// The registry sub-catalog the attached command addresses.
    pub subproduct: String,
}

/// Exact shape of an encoded subproduct-selector fragment with namespace
/// `xmlns` and sub-catalog `sub`.  With `prefixed` the element and attribute
/// names carry the `namestoreExt` prefix, as encode produces them; without
/// it they are the bare local names that decode tolerates as aliases.
pub open spec fn is_namestore_enc(
    e: XmlElement,
    xmlns: Seq<char>,
    sub: Seq<char>,
    prefixed: bool,
) -> bool {
    &&& e.name@ == if prefixed {
        "namestoreExt:namestoreExt"@
    } else {
        "namestoreExt"@
    }
    &&& e.attrs@.len() == 1
    &&& e.attrs@[0].name@ == if prefixed {
        "xmlns:namestoreExt"@
    } else {
        "xmlns"@
    }
    &&& e.attrs@[0].value@ == xmlns
    &&& e.text is None
    &&& e.children@.len() == 1
    &&& e.children@[0].name@ == if prefixed {
        "namestoreExt:subProduct"@
    } else {
        "subProduct"@
    }
    &&& e.children@[0].attrs@.len() == 0
    &&& e.children@[0].children@.len() == 0
    &&& e.children@[0].text matches Some(t) && t@ == sub
}

/// What decoding a fragment as a subproduct selector yields: the namespace
/// value and the sub-catalog text, or nothing where the shape does not
/// match.
pub open spec fn spec_dec_namestore(e: XmlElement) -> Option<(Seq<char>, Seq<char>)> {
    if name_matches(e.name@, "namestoreExt:namestoreExt"@, "namestoreExt"@) {
        match spec_find_attr(e.attrs@, "xmlns:namestoreExt"@, "xmlns"@) {
            Some(x) => match spec_find_child(
                e.children@,
                "namestoreExt:subProduct"@,
                "subProduct"@,
            ) {
                Some(c) => match c.text {
                    Some(t) => Some((x, t@)),
                    None => None,
                },
                None => None,
            },
            None => None,
        }
    } else {
        None
    }
}

impl NameStore {
    /// Selects the registry sub-catalog `subproduct`, under this
    /// extension's own namespace.
    pub fn new(subproduct: &str) -> (r: NameStore)
        ensures
            r.data.xmlns@ == XMLNS@,
            r.data.subproduct@ == subproduct@,
    {
        NameStore {
            data: NameStoreData { xmlns: XMLNS.to_owned(), subproduct: subproduct.to_owned() },
        }
    }

    /// Encodes this extension as its prefixed element tree, namespace
    /// declaration included.
    pub fn encode(&self) -> (r: XmlElement)
        ensures
            is_namestore_enc(r, self.data.xmlns@, self.data.subproduct@, true),
    {
        let mut attrs: Vec<crate::xml::XmlAttr> = Vec::new();
        attrs.push(attr("xmlns:namestoreExt", self.data.xmlns.as_str()));
        let mut children: Vec<XmlElement> = Vec::new();
        children.push(
            XmlElement::text_elem("namestoreExt:subProduct", self.data.subproduct.as_str()),
        );
        XmlElement::node_elem("namestoreExt:namestoreExt", attrs, children)
    }

    /// Decodes a fragment as a subproduct selector, accepting bare local
    /// names wherever the prefixed form is absent.
    pub fn decode(e: &XmlElement) -> (r: Result<NameStore, ParseError>)
        ensures
            match r {
                Ok(ns) => spec_dec_namestore(*e) == Some((ns.data.xmlns@, ns.data.subproduct@)),
                Err(_) => spec_dec_namestore(*e) is None,
            },
            !name_matches(e.name@, "namestoreExt:namestoreExt"@, "namestoreExt"@) ==> r matches Err(
                ParseError::UnexpectedElement(_),
            ),
    {
        if !e.has_name("namestoreExt:namestoreExt", "namestoreExt") {
            return Err(ParseError::UnexpectedElement(e.name.clone()));
        }
        let xmlns = match e.find_attr("xmlns:namestoreExt", "xmlns") {
            Some(v) => v.clone(),
            None => {
                return Err(ParseError::MissingAttribute("xmlns:namestoreExt".to_owned()));
            },
        };
        let child = match e.find_child("namestoreExt:subProduct", "subProduct") {
            Some(c) => c,
            None => {
                return Err(ParseError::MissingElement("namestoreExt:subProduct".to_owned()));
            },
        };
        let sub = match &child.text {
            Some(t) => t.clone(),
            None => {
                return Err(ParseError::MissingText("namestoreExt:subProduct".to_owned()));
            },
        };
        Ok(NameStore { data: NameStoreData { xmlns, subproduct: sub } })
    }
}

/// Round trip with aliasing tolerance: any fragment in the exact encoded
/// shape — the prefixed one that encode emits or its bare-name alias —
/// decodes back to the namespace and sub-catalog it was built from.
pub proof fn lemma_namestore_roundtrip(
    e: XmlElement,
    xmlns: Seq<char>,
    sub: Seq<char>,
    prefixed: bool,
)
    requires
        is_namestore_enc(e, xmlns, sub, prefixed),
    ensures
        spec_dec_namestore(e) == Some((xmlns, sub)),
{
    assert(name_matches(e.name@, "namestoreExt:namestoreExt"@, "namestoreExt"@));
    assert(spec_find_attr(e.attrs@, "xmlns:namestoreExt"@, "xmlns"@) == Some(xmlns));
    assert(spec_find_child(e.children@, "namestoreExt:subProduct"@, "subProduct"@) == Some(
        e.children@[0],
    ));
}

} // verus!
