//! The domain-check response data: per-domain availability entries nested
//! under the check-data element, each carrying the queried name, an
//! availability flag, and an optional reason.

use vstd::prelude::*;

use crate::error::ParseError;
use crate::strutil::{parse_u16, spec_all_digits, spec_uint_val};
use crate::xml::{name_matches, spec_find_attr, spec_find_child, XmlElement};

verus! {

/// Whether a queried domain can be provisioned.
#[derive(Debug, Clone, Copy, PartialEq, Eq, Structural)]
pub enum Availability {
    Unavailable,
    Available,
}

impl Availability {
    /// Reads the wire's numeric availability flag: zero means unavailable,
    /// anything else available.
    pub fn from_avail(avail: u16) -> (r: Availability)
        ensures
            r == Availability::Available <==> avail != 0,
    {
        if avail == 0 {
            Availability::Unavailable
        } else {
            Availability::Available
        }
    }
}

/// One queried domain with its availability flag.
#[derive(Debug, Clone, PartialEq, Eq)]
pub struct DomainCheck {
    pub name: String,
    pub avail: u16,
}

/// One check-data entry: the queried domain and, where the registry gave
/// one, the reason it is unavailable.
#[derive(Debug, Clone, PartialEq, Eq)]
pub struct DomainCheckDataItem {
    pub name: DomainCheck,
    pub reason: Option<String>,
}

/// The list of check-data entries, in document order.
#[derive(Debug, Clone, PartialEq, Eq)]
pub struct DomainCheckData {
    pub domain_list: Vec<DomainCheckDataItem>,
}

/// The decoded check-data section of a domain-check response.
#[derive(Debug, Clone, PartialEq, Eq)]
pub struct DomainCheckResult {
    pub check_data: DomainCheckData,
}

/// What one check-data entry carries, as plain values: domain text,
/// availability flag, optional reason text.
pub open spec fn item_view(i: DomainCheckDataItem) -> (Seq<char>, int, Option<Seq<char>>) {
    (
        i.name.name@,
        i.name.avail as int,
        match i.reason {
            Some(r) => Some(r@),
            None => None,
        },
    )
}

/// What decoding a fragment as the queried-domain element yields: its
/// text and its availability flag, read as a 16-bit number.
pub open spec fn spec_dec_domain_name(e: XmlElement) -> Option<(Seq<char>, int)> {
    if name_matches(e.name@, "domain:name"@, "name"@) {
        match e.text {
            Some(t) => match spec_find_attr(e.attrs@, "avail"@, "avail"@) {
                Some(a) => if a.len() > 0 && spec_all_digits(a) && spec_uint_val(a) <= u16::MAX {
                    Some((t@, spec_uint_val(a)))
                } else {
                    None
                },
                None => None,
            },
            None => None,
        }
    } else {
        None
    }
}

/// What decoding one check-data entry yields.
pub open spec fn spec_dec_cd(e: XmlElement) -> Option<(Seq<char>, int, Option<Seq<char>>)> {
    if name_matches(e.name@, "domain:cd"@, "cd"@) {
        match spec_find_child(e.children@, "domain:name"@, "name"@) {
            Some(n) => match spec_dec_domain_name(n) {
                Some(p) => match spec_find_child(e.children@, "domain:reason"@, "reason"@) {
                    Some(re) => match re.text {
                        Some(t) => Some((p.0, p.1, Some(t@))),
                        None => None,
                    },
                    None => Some((p.0, p.1, None)),
                },
                None => None,
            },
            None => None,
        }
    } else {
        None
    }
}

/// What decoding a whole check-data child list yields: every child must
/// be a well-formed entry, in order.
pub open spec fn spec_dec_check_data(s: Seq<XmlElement>) -> Option<
    Seq<(Seq<char>, int, Option<Seq<char>>)>,
>
    decreases s.len(),
{
    if s.len() == 0 {
        Some(Seq::<(Seq<char>, int, Option<Seq<char>>)>::empty())
    } else {
        match spec_dec_cd(s[0]) {
            Some(it) => match spec_dec_check_data(s.drop_first()) {
                Some(rest) => Some(seq![it] + rest),
                None => None,
            },
            None => None,
        }
    }
}

/// Decodes one check-data entry.
fn decode_cd(e: &XmlElement) -> (r: Result<DomainCheckDataItem, ParseError>)
    ensures
        match r {
            Ok(it) => spec_dec_cd(*e) == Some(item_view(it)),
            Err(_) => spec_dec_cd(*e) is None,
        },
{
    if !e.has_name("domain:cd", "cd") {
        return Err(ParseError::UnexpectedElement(e.name.clone()));
    }
    let n = match e.find_child("domain:name", "name") {
        Some(c) => c,
        None => {
            return Err(ParseError::MissingElement("domain:name".to_owned()));
        },
    };
    if !n.has_name("domain:name", "name") {
        return Err(ParseError::UnexpectedElement(n.name.clone()));
    }
    let text = match &n.text {
        Some(t) => t.clone(),
        None => {
            return Err(ParseError::MissingText("domain:name".to_owned()));
        },
    };
    let avail_text = match n.find_attr("avail", "avail") {
        Some(v) => v,
        None => {
            return Err(ParseError::MissingAttribute("avail".to_owned()));
        },
    };
    let avail = match parse_u16(avail_text.as_str()) {
        Some(v) => v,
        None => {
            return Err(ParseError::InvalidText(avail_text.clone()));
        },
    };
    let reason: Option<String> = match e.find_child("domain:reason", "reason") {
        Some(re) => match &re.text {
            Some(t) => Some(t.clone()),
            None => {
                return Err(ParseError::MissingText("domain:reason".to_owned()));
            },
        },
        None => None,
    };
    Ok(DomainCheckDataItem { name: DomainCheck { name: text, avail }, reason })
}

impl DomainCheckResult {
    /// Decodes the check-data section of a domain-check response: the
    /// `chkData` element over its entries, in document order.
    pub fn decode(e: &XmlElement) -> (r: Result<DomainCheckResult, ParseError>)
        ensures
            match r {
                Ok(d) => name_matches(e.name@, "domain:chkData"@, "chkData"@)
                    && spec_dec_check_data(e.children@) == Some(
                    d.check_data.domain_list@.map_values(|it: DomainCheckDataItem| item_view(it)),
                ),
                Err(_) => !name_matches(e.name@, "domain:chkData"@, "chkData"@)
                    || spec_dec_check_data(e.children@) is None,
            },
    {
        if !e.has_name("domain:chkData", "chkData") {
            return Err(ParseError::UnexpectedElement(e.name.clone()));
        }
        let n = e.children.len();
        let mut acc: Vec<DomainCheckDataItem> = Vec::new();
        let mut i: usize = 0;
        proof {
            assert(e.children@.skip(0) =~= e.children@);
            assert(acc@.map_values(|it: DomainCheckDataItem| item_view(it)) =~= Seq::<
                (Seq<char>, int, Option<Seq<char>>),
            >::empty());
        }
        while i < n
            invariant
                i <= n == e.children@.len(),
                match spec_dec_check_data(e.children@.skip(i as int)) {
                    Some(rest) => spec_dec_check_data(e.children@) == Some(
                        acc@.map_values(|it: DomainCheckDataItem| item_view(it)) + rest,
                    ),
                    None => spec_dec_check_data(e.children@) is None,
                },
            decreases n - i,
        {
            proof {
                assert(e.children@.skip(i as int)[0] == e.children@[i as int]);
                assert(e.children@.skip(i as int).drop_first() =~= e.children@.skip(i as int + 1));
            }
            let item = match decode_cd(&e.children[i]) {
                Ok(it) => it,
                Err(err) => {
                    return Err(err);
                },
            };
            let ghost old_view = acc@.map_values(|it: DomainCheckDataItem| item_view(it));
            acc.push(item);
            proof {
                assert(acc@.map_values(|it: DomainCheckDataItem| item_view(it)) =~= old_view.push(
                    item_view(item),
                ));
                match spec_dec_check_data(e.children@.skip(i as int + 1)) {
                    Some(rest) => {
                        assert(old_view + (seq![item_view(item)] + rest) =~= old_view.push(
                            item_view(item),
                        ) + rest);
                    },
                    None => {},
                }
            }
            i += 1;
        }
        proof {
            assert(e.children@.skip(n as int).len() == 0);
            assert(acc@.map_values(|it: DomainCheckDataItem| item_view(it)) + Seq::<
                (Seq<char>, int, Option<Seq<char>>),
            >::empty() =~= acc@.map_values(|it: DomainCheckDataItem| item_view(it)));
        }
        Ok(DomainCheckResult { check_data: DomainCheckData { domain_list: acc } })
    }
}

} // verus!
