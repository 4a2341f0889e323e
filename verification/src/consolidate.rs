//! The expiry-sync update extension and its validated partial-date value.
//!
//! A partial date is a month/day pair (no year) with an optional fixed UTC
//! offset.  Validation happens at construction and nowhere else: the month
//! must lie in `[1, 12]`, the day in `[1, 31]` and within a fixed per-month
//! bound table whose February entry is 29 unconditionally, there being no
//! year to consult.  The rendered text is canonical `--MM-DD`, zero-padded,
//! with the offset appended as `±HH:MM` when present.

use vstd::prelude::*;

use crate::error::{ParseError, ValidationError};
use crate::namestore::{is_namestore_enc, lemma_namestore_roundtrip, spec_dec_namestore, NameStore};
use crate::strutil::{
    digit_val, lemma_two_digits_roundtrip, spec_digit_val, spec_two_digits, two_digit_string,
};
use crate::xml::{attr, name_matches, spec_find_child, XmlAttr, XmlElement};

verus! {

/// Namespace URI of the expiry-sync update extension.
pub const XMLNS: &'static str = "http://www.verisign.com/epp/sync-1.0";

/// A fixed UTC offset, rendered as `±HH:MM`.
#[derive(Debug, Clone, Copy, PartialEq, Eq)]
pub struct UtcOffset {
    /// Whether the offset lies west of UTC.
    pub negative: bool,
    /// Whole hours of the offset, at most 23.
    pub hours: u8,
    /// Minutes of the offset past the hour, at most 59.
    pub minutes: u8,
}

/// A validated month/day pair with an optional fixed UTC offset.  The year
/// is not part of the value, so no leap-year context exists.
#[derive(Debug, Clone, Copy, PartialEq, Eq)]
pub struct GMonthDay {
    pub month: u8,
    pub day: u8,
    pub timezone: Option<UtcOffset>,
}

/// The fixed per-month maximum day: 29 for February unconditionally, 30 or
/// 31 elsewhere.
pub open spec fn spec_month_max(m: int) -> int {
    if m == 2 {
        29
    } else if m == 4 || m == 6 || m == 9 || m == 11 {
        30
    } else {
        31
    }
}

/// The validity condition construction enforces.
pub open spec fn spec_gmd_valid(month: int, day: int) -> bool {
    &&& 1 <= month <= 12
    &&& 1 <= day <= 31
    &&& day <= spec_month_max(month)
}

impl UtcOffset {
    /// Whether the fields lie within a day's bounds.
    pub open spec fn wf(self) -> bool {
        self.hours <= 23 && self.minutes <= 59
    }

    /// The canonical `±HH:MM` rendering.
    pub open spec fn spec_render(self) -> Seq<char> {
        seq![if self.negative { '-' } else { '+' }] + spec_two_digits(self.hours as int)
            + seq![':'] + spec_two_digits(self.minutes as int)
    }

    /// Builds an offset, rejecting hours above 23 or minutes above 59.
    pub fn new(negative: bool, hours: u8, minutes: u8) -> (r: Result<UtcOffset, ValidationError>)
        ensures
            hours <= 23 && minutes <= 59 ==> r == Ok::<UtcOffset, ValidationError>(UtcOffset { negative, hours, minutes }),
            hours > 23 || minutes > 59 ==> r == Err::<UtcOffset, ValidationError>(ValidationError::OffsetOutOfRange),
    {
        if hours > 23 || minutes > 59 {
            Err(ValidationError::OffsetOutOfRange)
        } else {
            Ok(UtcOffset { negative, hours, minutes })
        }
    }

    /// Renders the offset as `±HH:MM`.
    pub fn render(&self) -> (r: String)
        requires
            self.wf(),
        ensures
            r@ == self.spec_render(),
    {
        let mut s = String::new();
        s.append(if self.negative { "-" } else { "+" });
        let h = two_digit_string(self.hours);
        s.append(h.as_str());
        s.append(":");
        let m = two_digit_string(self.minutes);
        s.append(m.as_str());
        proof {
            reveal_strlit("-");
            reveal_strlit("+");
            reveal_strlit(":");
            assert(s@ =~= self.spec_render());
        }
        s
    }
}

/// What parsing a `±HH:MM` tail yields: an offset within bounds, or
/// nothing where the shape or the bounds fail.
pub open spec fn spec_parse_offset(s: Seq<char>) -> Option<UtcOffset> {
    if s.len() == 6 && (s[0] == '+' || s[0] == '-') && s[3] == ':' && spec_digit_val(s[1]) >= 0
        && spec_digit_val(s[2]) >= 0 && spec_digit_val(s[4]) >= 0 && spec_digit_val(s[5]) >= 0 {
        let h = spec_digit_val(s[1]) * 10 + spec_digit_val(s[2]);
        let m = spec_digit_val(s[4]) * 10 + spec_digit_val(s[5]);
        if h <= 23 && m <= 59 {
            Some(UtcOffset { negative: s[0] == '-', hours: h as u8, minutes: m as u8 })
        } else {
            None
        }
    } else {
        None
    }
}

/// What parsing `--MM-DD[±HH:MM]` text yields: a partial date that passes
/// construction's own validity condition, or nothing.
pub open spec fn spec_parse_gmd(s: Seq<char>) -> Option<GMonthDay> {
    if s.len() >= 7 && s[0] == '-' && s[1] == '-' && s[4] == '-' && spec_digit_val(s[2]) >= 0
        && spec_digit_val(s[3]) >= 0 && spec_digit_val(s[5]) >= 0 && spec_digit_val(s[6]) >= 0 {
        let m = spec_digit_val(s[2]) * 10 + spec_digit_val(s[3]);
        let d = spec_digit_val(s[5]) * 10 + spec_digit_val(s[6]);
        if spec_gmd_valid(m, d) {
            if s.len() == 7 {
                Some(GMonthDay { month: m as u8, day: d as u8, timezone: None })
            } else {
                match spec_parse_offset(s.skip(7)) {
                    Some(o) => Some(
                        GMonthDay { month: m as u8, day: d as u8, timezone: Some(o) },
                    ),
                    None => None,
                }
            }
        } else {
            None
        }
    } else {
        None
    }
}

impl GMonthDay {
    /// Whether the value passes construction's validity condition.
    pub open spec fn wf(self) -> bool {
        &&& spec_gmd_valid(self.month as int, self.day as int)
        &&& match self.timezone {
            Some(o) => o.wf(),
            None => true,
        }
    }

    /// The canonical `--MM-DD[±HH:MM]` rendering.
    pub open spec fn spec_render(self) -> Seq<char> {
        seq!['-', '-'] + spec_two_digits(self.month as int) + seq!['-'] + spec_two_digits(
            self.day as int,
        ) + match self.timezone {
            Some(o) => o.spec_render(),
            None => Seq::<char>::empty(),
        }
    }

    /// Builds a partial date.  Fails when the month lies outside `[1, 12]`,
    /// when the day lies outside `[1, 31]`, and when the day exceeds the
    /// fixed per-month bound; nothing else is validated, and the checks are
    /// made in that order.
    pub fn new(month: u8, day: u8, timezone: Option<UtcOffset>) -> (r: Result<
        GMonthDay,
        ValidationError,
    >)
        ensures
            spec_gmd_valid(month as int, day as int) ==> r == Ok::<GMonthDay, ValidationError>(
                GMonthDay { month, day, timezone },
            ),
            month < 1 || month > 12 ==> r == Err::<GMonthDay, ValidationError>(ValidationError::MonthOutOfRange),
            1 <= month <= 12 && (day < 1 || day > 31) ==> r == Err::<GMonthDay, ValidationError>(ValidationError::DayOutOfRange),
            1 <= month <= 12 && 1 <= day <= 31 && day > spec_month_max(month as int) ==> r == Err::<GMonthDay, ValidationError>(
                ValidationError::DayTooLongForMonth,
            ),
    {
        if month < 1 || month > 12 {
            return Err(ValidationError::MonthOutOfRange);
        }
        if day < 1 || day > 31 {
            return Err(ValidationError::DayOutOfRange);
        }
        if day > month_max(month) {
            return Err(ValidationError::DayTooLongForMonth);
        }
        Ok(GMonthDay { month, day, timezone })
    }

    /// Renders the value as canonical `--MM-DD` text, zero-padded, with
    /// the offset appended as `±HH:MM` when present.
    pub fn render(&self) -> (r: String)
        requires
            self.wf(),
        ensures
            r@ == self.spec_render(),
    {
        let mut s = String::new();
        s.append("--");
        let m = two_digit_string(self.month);
        s.append(m.as_str());
        s.append("-");
        let d = two_digit_string(self.day);
        s.append(d.as_str());
        match &self.timezone {
            Some(o) => {
                let t = o.render();
                s.append(t.as_str());
            },
            None => {},
        }
        proof {
            reveal_strlit("--");
            reveal_strlit("-");
            assert(s@ =~= self.spec_render());
        }
        s
    }

    /// Reads canonical `--MM-DD[±HH:MM]` text back into a partial date.
    /// Fails on any other shape, and on values construction would reject.
    pub fn parse(s: &str) -> (r: Result<GMonthDay, ParseError>)
        ensures
            match r {
                Ok(g) => spec_parse_gmd(s@) == Some(g) && g.wf(),
                Err(_) => spec_parse_gmd(s@) is None,
            },
    {
        let n = s.unicode_len();
        if n != 7 && n != 13 {
            return Err(ParseError::InvalidText(s.to_owned()));
        }
        if s.get_char(0) != '-' || s.get_char(1) != '-' || s.get_char(4) != '-' {
            return Err(ParseError::InvalidText(s.to_owned()));
        }
        let m_hi = match digit_val(s.get_char(2)) {
            Some(v) => v,
            None => {
                return Err(ParseError::InvalidText(s.to_owned()));
            },
        };
        let m_lo = match digit_val(s.get_char(3)) {
            Some(v) => v,
            None => {
                return Err(ParseError::InvalidText(s.to_owned()));
            },
        };
        let d_hi = match digit_val(s.get_char(5)) {
            Some(v) => v,
            None => {
                return Err(ParseError::InvalidText(s.to_owned()));
            },
        };
        let d_lo = match digit_val(s.get_char(6)) {
            Some(v) => v,
            None => {
                return Err(ParseError::InvalidText(s.to_owned()));
            },
        };
        let month: u8 = m_hi * 10 + m_lo;
        let day: u8 = d_hi * 10 + d_lo;
        if !(1 <= month && month <= 12 && 1 <= day && day <= 31 && day <= month_max(month)) {
            return Err(ParseError::InvalidText(s.to_owned()));
        }
        if n == 7 {
            return Ok(GMonthDay { month, day, timezone: None });
        }
        let sign = s.get_char(7);
        if (sign != '+' && sign != '-') || s.get_char(10) != ':' {
            proof {
                lemma_offset_positions(s@);
            }
            return Err(ParseError::InvalidText(s.to_owned()));
        }
        let h_hi = match digit_val(s.get_char(8)) {
            Some(v) => v,
            None => {
                proof {
                    lemma_offset_positions(s@);
                }
                return Err(ParseError::InvalidText(s.to_owned()));
            },
        };
        let h_lo = match digit_val(s.get_char(9)) {
            Some(v) => v,
            None => {
                proof {
                    lemma_offset_positions(s@);
                }
                return Err(ParseError::InvalidText(s.to_owned()));
            },
        };
        let mm_hi = match digit_val(s.get_char(11)) {
            Some(v) => v,
            None => {
                proof {
                    lemma_offset_positions(s@);
                }
                return Err(ParseError::InvalidText(s.to_owned()));
            },
        };
        let mm_lo = match digit_val(s.get_char(12)) {
            Some(v) => v,
            None => {
                proof {
                    lemma_offset_positions(s@);
                }
                return Err(ParseError::InvalidText(s.to_owned()));
            },
        };
        let hours: u8 = h_hi * 10 + h_lo;
        let minutes: u8 = mm_hi * 10 + mm_lo;
        if hours > 23 || minutes > 59 {
            proof {
                lemma_offset_positions(s@);
            }
            return Err(ParseError::InvalidText(s.to_owned()));
        }
        proof {
            lemma_offset_positions(s@);
        }
        Ok(
            GMonthDay {
                month,
                day,
                timezone: Some(UtcOffset { negative: sign == '-', hours, minutes }),
            },
        )
    }
}

/// Relates the absolute character positions of the offset tail of a
/// 13-character rendering to the positions the offset parser sees.
proof fn lemma_offset_positions(s: Seq<char>)
    requires
        s.len() == 13,
    ensures
        s.skip(7).len() == 6,
        s.skip(7)[0] == s[7],
        s.skip(7)[1] == s[8],
        s.skip(7)[2] == s[9],
        s.skip(7)[3] == s[10],
        s.skip(7)[4] == s[11],
        s.skip(7)[5] == s[12],
{
}

/// The fixed per-month maximum day.
pub fn month_max(month: u8) -> (r: u8)
    requires
        1 <= month <= 12,
    ensures
        r as int == spec_month_max(month as int),
{
    if month == 2 {
        29
    } else if month == 4 || month == 6 || month == 9 || month == 11 {
        30
    } else {
        31
    }
}

/// Round trip of the partial-date text form: rendering any valid value and
/// parsing the text back yields the value again.
pub proof fn lemma_gmonthday_roundtrip(g: GMonthDay)
    requires
        g.wf(),
    ensures
        spec_parse_gmd(g.spec_render()) == Some(g),
{
    let s = g.spec_render();
    lemma_two_digits_roundtrip(g.month as int);
    lemma_two_digits_roundtrip(g.day as int);
    assert(s[2] == spec_two_digits(g.month as int)[0]);
    assert(s[3] == spec_two_digits(g.month as int)[1]);
    assert(s[5] == spec_two_digits(g.day as int)[0]);
    assert(s[6] == spec_two_digits(g.day as int)[1]);
    match g.timezone {
        None => {
            assert(s.len() == 7);
        },
        Some(o) => {
            assert(s.len() == 13);
            lemma_two_digits_roundtrip(o.hours as int);
            lemma_two_digits_roundtrip(o.minutes as int);
            let t = s.skip(7);
            assert(t =~= o.spec_render());
            assert(t[1] == spec_two_digits(o.hours as int)[0]);
            assert(t[2] == spec_two_digits(o.hours as int)[1]);
            assert(t[4] == spec_two_digits(o.minutes as int)[0]);
            assert(t[5] == spec_two_digits(o.minutes as int)[1]);
            assert(spec_parse_offset(t) == Some(o));
        },
    }
}


/// Exact shape of an encoded expiry-sync fragment carrying the rendered
/// expiry text `exp`.  With `prefixed` the names carry the `sync` prefix;
/// without it they are the bare forms that encode emits, the root element
/// declaring the namespace either way.
pub open spec fn is_update_enc(e: XmlElement, exp: Seq<char>, prefixed: bool) -> bool {
    &&& e.name@ == if prefixed {
        "sync:update"@
    } else {
        "update"@
    }
    &&& e.attrs@.len() == 1
    &&& e.attrs@[0].name@ == if prefixed {
        "xmlns:sync"@
    } else {
        "xmlns"@
    }
    &&& e.attrs@[0].value@ == XMLNS@
    &&& e.text is None
    &&& e.children@.len() == 1
    &&& is_exp_elem(e.children@[0], exp, prefixed)
}

/// Exact shape of the `expMonthDay` leaf carrying the rendered expiry text.
pub open spec fn is_exp_elem(e: XmlElement, exp: Seq<char>, prefixed: bool) -> bool {
    &&& e.name@ == if prefixed {
        "sync:expMonthDay"@
    } else {
        "expMonthDay"@
    }
    &&& e.attrs@.len() == 0
    &&& e.children@.len() == 0
    &&& e.text matches Some(t) && t@ == exp
}

/// What decoding a fragment as an expiry-sync update yields: the expiry
/// text, or nothing where the shape does not match.
pub open spec fn spec_dec_update(e: XmlElement) -> Option<Seq<char>> {
    if name_matches(e.name@, "sync:update"@, "update"@) {
        match spec_find_child(e.children@, "sync:expMonthDay"@, "expMonthDay"@) {
            Some(c) => match c.text {
                Some(t) => Some(t@),
                None => None,
            },
            None => None,
        }
    } else {
        None
    }
}

/// The expiry-sync update extension: wraps a partial date rendered as text.
#[derive(Debug, Clone, PartialEq, Eq)]
pub struct Update {
    /// The expiry date of the domain, rendered as `--MM-DD[±HH:MM]`.
    pub exp: String,
}

impl Update {
    /// Creates a new expiry-sync update request.
    pub fn new(expiration: GMonthDay) -> (r: Update)
        requires
            expiration.wf(),
        ensures
            r.exp@ == expiration.spec_render(),
    {
        Update { exp: expiration.render() }
    }

    /// Encodes this extension as an `update` element declaring its
    /// namespace, with a single `expMonthDay` child.
    pub fn encode(&self) -> (r: XmlElement)
        ensures
            is_update_enc(r, self.exp@, false),
    {
        let mut attrs: Vec<XmlAttr> = Vec::new();
        attrs.push(attr("xmlns", XMLNS));
        let mut children: Vec<XmlElement> = Vec::new();
        children.push(XmlElement::text_elem("expMonthDay", self.exp.as_str()));
        XmlElement::node_elem("update", attrs, children)
    }

    /// Decodes a fragment as an expiry-sync update, accepting prefixed
    /// names as aliases of the bare ones.
    pub fn decode(e: &XmlElement) -> (r: Result<Update, ParseError>)
        ensures
            match r {
                Ok(u) => spec_dec_update(*e) == Some(u.exp@),
                Err(_) => spec_dec_update(*e) is None,
            },
            !name_matches(e.name@, "sync:update"@, "update"@) ==> r matches Err(
                ParseError::UnexpectedElement(_),
            ),
    {
        if !e.has_name("sync:update", "update") {
            return Err(ParseError::UnexpectedElement(e.name.clone()));
        }
        let child = match e.find_child("sync:expMonthDay", "expMonthDay") {
            Some(c) => c,
            None => {
                return Err(ParseError::MissingElement("expMonthDay".to_owned()));
            },
        };
        match &child.text {
            Some(t) => Ok(Update { exp: t.clone() }),
            None => Err(ParseError::MissingText("expMonthDay".to_owned())),
        }
    }
}

/// Round trip with aliasing tolerance: any fragment in the exact encoded
/// shape, bare or prefixed, decodes back to the expiry text it carries.
pub proof fn lemma_update_roundtrip(e: XmlElement, exp: Seq<char>, prefixed: bool)
    requires
        is_update_enc(e, exp, prefixed),
    ensures
        spec_dec_update(e) == Some(exp),
{
    assert(spec_find_child(e.children@, "sync:expMonthDay"@, "expMonthDay"@) == Some(
        e.children@[0],
    ));
}

/// Exact shape of the composite fragment: one `update` element with exactly
/// one `expMonthDay` child and one subproduct-selector child, and no extra
/// wrapper element around the composite.
pub open spec fn is_update_with_namestore_enc(
    e: XmlElement,
    exp: Seq<char>,
    xmlns: Seq<char>,
    sub: Seq<char>,
    sync_prefixed: bool,
    ns_prefixed: bool,
) -> bool {
    &&& e.name@ == if sync_prefixed {
        "sync:update"@
    } else {
        "update"@
    }
    &&& e.attrs@.len() == 1
    &&& e.attrs@[0].name@ == if sync_prefixed {
        "xmlns:sync"@
    } else {
        "xmlns"@
    }
    &&& e.attrs@[0].value@ == XMLNS@
    &&& e.text is None
    &&& e.children@.len() == 2
    &&& is_exp_elem(e.children@[0], exp, sync_prefixed)
    &&& is_namestore_enc(e.children@[1], xmlns, sub, ns_prefixed)
}

/// What decoding a fragment as the composite yields: the expiry text and
/// the subproduct selector's namespace and sub-catalog.
pub open spec fn spec_dec_update_with_namestore(e: XmlElement) -> Option<
    (Seq<char>, (Seq<char>, Seq<char>)),
> {
    if name_matches(e.name@, "sync:update"@, "update"@) {
        match spec_find_child(e.children@, "sync:expMonthDay"@, "expMonthDay"@) {
            Some(c) => match c.text {
                Some(t) => match spec_find_child(
                    e.children@,
                    "namestoreExt:namestoreExt"@,
                    "namestoreExt"@,
                ) {
                    Some(n) => match spec_dec_namestore(n) {
                        Some(p) => Some((t@, p)),
                        None => None,
                    },
                    None => None,
                },
                None => None,
            },
            None => None,
        }
    } else {
        None
    }
}

/// The expiry-sync update combined with a subproduct selector.  The two
/// members encode as direct children of one `update` element — the
/// composite introduces no wrapper element of its own.
#[derive(Debug, Clone, PartialEq, Eq)]
pub struct UpdateWithNameStore {
    pub sync: Update,
    pub namestore: NameStore,
}

impl UpdateWithNameStore {
    /// Creates a new expiry-sync update with a subproduct selector.
    pub fn new(expiration: GMonthDay, subproduct: &str) -> (r: UpdateWithNameStore)
        requires
            expiration.wf(),
        ensures
            r.sync.exp@ == expiration.spec_render(),
            r.namestore.data.xmlns@ == crate::namestore::XMLNS@,
            r.namestore.data.subproduct@ == subproduct@,
    {
        UpdateWithNameStore { sync: Update::new(expiration), namestore: NameStore::new(subproduct) }
    }

    /// Encodes the composite as one `update` element with exactly one
    /// `expMonthDay` child and one subproduct-selector child, and no extra
    /// wrapper element.
    pub fn encode(&self) -> (r: XmlElement)
        ensures
            is_update_with_namestore_enc(
                r,
                self.sync.exp@,
                self.namestore.data.xmlns@,
                self.namestore.data.subproduct@,
                false,
                true,
            ),
    {
        let mut attrs: Vec<XmlAttr> = Vec::new();
        attrs.push(attr("xmlns", XMLNS));
        let mut children: Vec<XmlElement> = Vec::new();
        children.push(XmlElement::text_elem("expMonthDay", self.sync.exp.as_str()));
        children.push(self.namestore.encode());
        XmlElement::node_elem("update", attrs, children)
    }

    /// Decodes a fragment as the composite, accepting bare and prefixed
    /// names alike.
    pub fn decode(e: &XmlElement) -> (r: Result<UpdateWithNameStore, ParseError>)
        ensures
            match r {
                Ok(u) => spec_dec_update_with_namestore(*e) == Some(
                    (u.sync.exp@, (u.namestore.data.xmlns@, u.namestore.data.subproduct@)),
                ),
                Err(_) => spec_dec_update_with_namestore(*e) is None,
            },
    {
        if !e.has_name("sync:update", "update") {
            return Err(ParseError::UnexpectedElement(e.name.clone()));
        }
        let child = match e.find_child("sync:expMonthDay", "expMonthDay") {
            Some(c) => c,
            None => {
                return Err(ParseError::MissingElement("expMonthDay".to_owned()));
            },
        };
        let exp = match &child.text {
            Some(t) => t.clone(),
            None => {
                return Err(ParseError::MissingText("expMonthDay".to_owned()));
            },
        };
        let ns_elem = match e.find_child("namestoreExt:namestoreExt", "namestoreExt") {
            Some(n) => n,
            None => {
                return Err(ParseError::MissingElement("namestoreExt:namestoreExt".to_owned()));
            },
        };
        let namestore = match NameStore::decode(ns_elem) {
            Ok(n) => n,
            Err(err) => {
                return Err(err);
            },
        };
        Ok(UpdateWithNameStore { sync: Update { exp }, namestore })
    }
}

/// Round trip with aliasing tolerance for the composite: any fragment in
/// the exact encoded shape, bare or prefixed, decodes back to the expiry
/// text and subproduct selector it was built from.
pub proof fn lemma_update_with_namestore_roundtrip(
    e: XmlElement,
    exp: Seq<char>,
    xmlns: Seq<char>,
    sub: Seq<char>,
    sync_prefixed: bool,
    ns_prefixed: bool,
)
    requires
        is_update_with_namestore_enc(e, exp, xmlns, sub, sync_prefixed, ns_prefixed),
    ensures
        spec_dec_update_with_namestore(e) == Some((exp, (xmlns, sub))),
{
    reveal_strlit("sync:expMonthDay");
    reveal_strlit("expMonthDay");
    reveal_strlit("namestoreExt:namestoreExt");
    reveal_strlit("namestoreExt");
    assert("sync:expMonthDay"@.len() == 16);
    assert("expMonthDay"@.len() == 11);
    assert("namestoreExt:namestoreExt"@.len() == 25);
    assert("namestoreExt"@.len() == 12);
    assert(spec_find_child(e.children@, "sync:expMonthDay"@, "expMonthDay"@) == Some(
        e.children@[0],
    ));
    assert(!name_matches(e.children@[0].name@, "namestoreExt:namestoreExt"@, "namestoreExt"@));
    let rest = e.children@.drop_first();
    assert(rest[0] == e.children@[1]);
    assert(name_matches(rest[0].name@, "namestoreExt:namestoreExt"@, "namestoreExt"@));
    assert(spec_find_child(rest, "namestoreExt:namestoreExt"@, "namestoreExt"@) == Some(rest[0]));
    assert(spec_find_child(e.children@, "namestoreExt:namestoreExt"@, "namestoreExt"@) == Some(
        e.children@[1],
    ));
    lemma_namestore_roundtrip(e.children@[1], xmlns, sub, ns_prefixed);
}

} // verus!
