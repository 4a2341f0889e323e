//! The registry-grace-period restore extension: an attribute-only request
//! element, and a response that is not one shape but a closed choice
//! between an update-result and an info-result form, both carrying an
//! ordered sequence of grace-period statuses.
//!
//! The response's concrete shape is not known until parse time; the
//! resolver inspects which of the candidate root element names is present,
//! in a fixed order, and decodes with that candidate's type.

use vstd::prelude::*;

use crate::error::ParseError;
use crate::xml::{attr, name_matches, spec_find_attr, str_eq, XmlAttr, XmlElement};

verus! {

/// Namespace URI of the registry-grace-period extension.
pub const XMLNS: &'static str = "urn:ietf:params:xml:ns:rgp-1.0";

/// The closed set of grace-period status tags a registry may report.
#[derive(Debug, Clone, Copy, PartialEq, Eq, Structural)]
pub enum RgpStatus {
    AddPeriod,
    AutoRenewPeriod,
    RenewPeriod,
    TransferPeriod,
    RedemptionPeriod,
    PendingDelete,
    PendingRestore,
}

/// The wire token of each status tag.
pub open spec fn spec_status_token(s: RgpStatus) -> Seq<char> {
    match s {
        RgpStatus::AddPeriod => "addPeriod"@,
        RgpStatus::AutoRenewPeriod => "autoRenewPeriod"@,
        RgpStatus::RenewPeriod => "renewPeriod"@,
        RgpStatus::TransferPeriod => "transferPeriod"@,
        RgpStatus::RedemptionPeriod => "redemptionPeriod"@,
        RgpStatus::PendingDelete => "pendingDelete"@,
        RgpStatus::PendingRestore => "pendingRestore"@,
    }
}

/// The status tag a wire token names, tried in a fixed order; `None` for
/// any text outside the closed set.
pub open spec fn spec_parse_status(t: Seq<char>) -> Option<RgpStatus> {
    if t == "addPeriod"@ {
        Some(RgpStatus::AddPeriod)
    } else if t == "autoRenewPeriod"@ {
        Some(RgpStatus::AutoRenewPeriod)
    } else if t == "renewPeriod"@ {
        Some(RgpStatus::RenewPeriod)
    } else if t == "transferPeriod"@ {
        Some(RgpStatus::TransferPeriod)
    } else if t == "redemptionPeriod"@ {
        Some(RgpStatus::RedemptionPeriod)
    } else if t == "pendingDelete"@ {
        Some(RgpStatus::PendingDelete)
    } else if t == "pendingRestore"@ {
        Some(RgpStatus::PendingRestore)
    } else {
        None
    }
}

impl RgpStatus {
    /// The wire token of this status tag.
    pub fn token(&self) -> (r: &'static str)
        ensures
            r@ == spec_status_token(*self),
    {
        match self {
            RgpStatus::AddPeriod => "addPeriod",
            RgpStatus::AutoRenewPeriod => "autoRenewPeriod",
            RgpStatus::RenewPeriod => "renewPeriod",
            RgpStatus::TransferPeriod => "transferPeriod",
            RgpStatus::RedemptionPeriod => "redemptionPeriod",
            RgpStatus::PendingDelete => "pendingDelete",
            RgpStatus::PendingRestore => "pendingRestore",
        }
    }

    /// Reads a wire token back into a status tag.
    pub fn parse(t: &String) -> (r: Option<RgpStatus>)
        ensures
            r == spec_parse_status(t@),
    {
        if str_eq(t, "addPeriod") {
            Some(RgpStatus::AddPeriod)
        } else if str_eq(t, "autoRenewPeriod") {
            Some(RgpStatus::AutoRenewPeriod)
        } else if str_eq(t, "renewPeriod") {
            Some(RgpStatus::RenewPeriod)
        } else if str_eq(t, "transferPeriod") {
            Some(RgpStatus::TransferPeriod)
        } else if str_eq(t, "redemptionPeriod") {
            Some(RgpStatus::RedemptionPeriod)
        } else if str_eq(t, "pendingDelete") {
            Some(RgpStatus::PendingDelete)
        } else if str_eq(t, "pendingRestore") {
            Some(RgpStatus::PendingRestore)
        } else {
            None
        }
    }
}

/// The wire tokens of the status tags are pairwise distinct, so reading a
/// rendered token back yields the tag it came from.
pub proof fn lemma_status_roundtrip(s: RgpStatus)
    ensures
        spec_parse_status(spec_status_token(s)) == Some(s),
{
    reveal_strlit("addPeriod");
    reveal_strlit("autoRenewPeriod");
    reveal_strlit("renewPeriod");
    reveal_strlit("transferPeriod");
    reveal_strlit("redemptionPeriod");
    reveal_strlit("pendingDelete");
    reveal_strlit("pendingRestore");
    assert("addPeriod"@.len() == 9);
    assert("autoRenewPeriod"@.len() == 15);
    assert("renewPeriod"@.len() == 11);
    assert("transferPeriod"@.len() == 14);
    assert("redemptionPeriod"@.len() == 16);
    assert("pendingDelete"@.len() == 13);
    assert("pendingRestore"@.len() == 14);
    assert("transferPeriod"@[0] == 't');
    assert("pendingRestore"@[0] == 'p');
}

/// The `restore` request: a single attribute-only element carrying the
/// fixed operation token `"request"`.
#[derive(Debug, Clone, PartialEq, Eq)]
pub struct RgpRestoreRequest {
    /// The value of the `op` attribute of the `restore` element.
    pub op: String,
}

impl Default for RgpRestoreRequest {
    /// The restore request with its fixed operation token.
    fn default() -> (r: RgpRestoreRequest)
        ensures
            r.op@ == "request"@,
    {
        RgpRestoreRequest { op: "request".to_owned() }
    }
}

/// Exact shape of an encoded restore request with operation token `op`:
/// one attribute-only element, no content, no children.
pub open spec fn is_restore_enc(e: XmlElement, op: Seq<char>, prefixed: bool) -> bool {
    &&& e.name@ == if prefixed {
        "rgp:restore"@
    } else {
        "restore"@
    }
    &&& e.attrs@.len() == 1
    &&& e.attrs@[0].name@ == "op"@
    &&& e.attrs@[0].value@ == op
    &&& e.text is None
    &&& e.children@.len() == 0
}

/// What decoding a fragment as a restore request yields: the operation
/// token, or nothing where the shape does not match.
pub open spec fn spec_dec_restore(e: XmlElement) -> Option<Seq<char>> {
    if name_matches(e.name@, "rgp:restore"@, "restore"@) {
        spec_find_attr(e.attrs@, "op"@, "op"@)
    } else {
        None
    }
}

impl RgpRestoreRequest {
    /// Encodes the request as its prefixed attribute-only element.
    pub fn encode(&self) -> (r: XmlElement)
        ensures
            is_restore_enc(r, self.op@, true),
    {
        let mut attrs: Vec<XmlAttr> = Vec::new();
        attrs.push(attr("op", self.op.as_str()));
        XmlElement::node_elem("rgp:restore", attrs, Vec::new())
    }

    /// Decodes a fragment as a restore request, accepting the bare element
    /// name as an alias of the prefixed one.
    pub fn decode(e: &XmlElement) -> (r: Result<RgpRestoreRequest, ParseError>)
        ensures
            match r {
                Ok(req) => spec_dec_restore(*e) == Some(req.op@),
                Err(_) => spec_dec_restore(*e) is None,
            },
    {
        if !e.has_name("rgp:restore", "restore") {
            return Err(ParseError::UnexpectedElement(e.name.clone()));
        }
        match e.find_attr("op", "op") {
            Some(v) => Ok(RgpRestoreRequest { op: v.clone() }),
            None => Err(ParseError::MissingAttribute("op".to_owned())),
        }
    }
}

/// Round trip with aliasing tolerance: any fragment in the exact encoded
/// shape, prefixed or bare, decodes back to the operation token it
/// carries.
pub proof fn lemma_restore_roundtrip(e: XmlElement, op: Seq<char>, prefixed: bool)
    requires
        is_restore_enc(e, op, prefixed),
    ensures
        spec_dec_restore(e) == Some(op),
{
    assert(spec_find_attr(e.attrs@, "op"@, "op"@) == Some(e.attrs@[0].value@));
}

/// The grace-period wrapper element: the extension's payload nested under
/// one `update` element in the grace-period namespace.
#[derive(Debug, Clone, PartialEq, Eq)]
pub struct Update<T> {
    pub data: T,
}

/// Exact shape of an encoded restore-request wrapper: one `update` element
/// declaring the grace-period namespace, with the restore element as its
/// only child.
pub open spec fn is_restore_update_enc(e: XmlElement, op: Seq<char>, prefixed: bool) -> bool {
    &&& e.name@ == if prefixed {
        "rgp:update"@
    } else {
        "update"@
    }
    &&& e.attrs@.len() == 1
    &&& e.attrs@[0].name@ == if prefixed {
        "xmlns:rgp"@
    } else {
        "xmlns"@
    }
    &&& e.attrs@[0].value@ == XMLNS@
    &&& e.text is None
    &&& e.children@.len() == 1
    &&& is_restore_enc(e.children@[0], op, prefixed)
}

impl Update<RgpRestoreRequest> {
    /// Encodes the wrapped restore request, namespace declaration
    /// included.
    pub fn encode(&self) -> (r: XmlElement)
        ensures
            is_restore_update_enc(r, self.data.op@, true),
    {
        let mut attrs: Vec<XmlAttr> = Vec::new();
        attrs.push(attr("xmlns:rgp", XMLNS));
        let mut children: Vec<XmlElement> = Vec::new();
        children.push(self.data.encode());
        XmlElement::node_elem("rgp:update", attrs, children)
    }
}


/// Exact shape of one encoded status element: attribute `s` carries the
/// wire token, nothing else.
pub open spec fn is_status_elem(e: XmlElement, st: RgpStatus, prefixed: bool) -> bool {
    &&& e.name@ == if prefixed {
        "rgp:rgpStatus"@
    } else {
        "rgpStatus"@
    }
    &&& e.attrs@.len() == 1
    &&& e.attrs@[0].name@ == "s"@
    &&& e.attrs@[0].value@ == spec_status_token(st)
    &&& e.text is None
    &&& e.children@.len() == 0
}

/// What decoding one child as a status element yields.
pub open spec fn spec_dec_status(e: XmlElement) -> Option<RgpStatus> {
    if name_matches(e.name@, "rgp:rgpStatus"@, "rgpStatus"@) {
        match spec_find_attr(e.attrs@, "s"@, "s"@) {
            Some(v) => spec_parse_status(v),
            None => None,
        }
    } else {
        None
    }
}

/// What decoding a whole child list as an ordered status sequence yields:
/// every child must be a status element, in order.
pub open spec fn spec_dec_statuses(s: Seq<XmlElement>) -> Option<Seq<RgpStatus>>
    decreases s.len(),
{
    if s.len() == 0 {
        Some(Seq::<RgpStatus>::empty())
    } else {
        match spec_dec_status(s[0]) {
            Some(st) => match spec_dec_statuses(s.drop_first()) {
                Some(rest) => Some(seq![st] + rest),
                None => None,
            },
            None => None,
        }
    }
}

/// Exact shape of an encoded response body: the given root name over the
/// encoded status elements, in order, the prefixed form declaring the
/// namespace.
pub open spec fn is_rgp_data_enc(
    e: XmlElement,
    update_form: bool,
    sts: Seq<RgpStatus>,
    prefixed: bool,
) -> bool {
    &&& e.name@ == if update_form {
        if prefixed {
            "rgp:upData"@
        } else {
            "upData"@
        }
    } else {
        if prefixed {
            "rgp:infData"@
        } else {
            "infData"@
        }
    }
    &&& if prefixed {
        e.attrs@.len() == 1 && e.attrs@[0].name@ == "xmlns:rgp"@ && e.attrs@[0].value@ == XMLNS@
    } else {
        e.attrs@.len() == 0
    }
    &&& e.text is None
    &&& e.children@.len() == sts.len()
    &&& forall|i: int| 0 <= i < sts.len() ==> is_status_elem(#[trigger] e.children@[i], sts[i], prefixed)
}

/// The update-result shape of the restore response.
#[derive(Debug, Clone, PartialEq, Eq)]
pub struct RgpRequestUpdateResponse {
    /// The reported grace-period statuses, in document order.
    pub rgp_status: Vec<RgpStatus>,
}

/// The info-result shape of the restore response.
#[derive(Debug, Clone, PartialEq, Eq)]
pub struct RgpRequestInfoResponse {
    /// The reported grace-period statuses, in document order.
    pub rgp_status: Vec<RgpStatus>,
}

/// The restore response: a closed choice between the update-result and the
/// info-result shape.
#[derive(Debug, Clone, PartialEq, Eq)]
pub enum RgpRequestResponse {
    Update(RgpRequestUpdateResponse),
    Info(RgpRequestInfoResponse),
}

/// Whether a fragment presents the update-result root name.
pub open spec fn spec_rgp_shape_update(e: XmlElement) -> bool {
    name_matches(e.name@, "rgp:upData"@, "upData"@)
}

/// Whether a fragment presents the info-result root name.
pub open spec fn spec_rgp_shape_info(e: XmlElement) -> bool {
    name_matches(e.name@, "rgp:infData"@, "infData"@)
}

/// Decodes every child as a status element, keeping document order.
fn decode_statuses(children: &Vec<XmlElement>) -> (r: Result<Vec<RgpStatus>, ParseError>)
    ensures
        match r {
            Ok(v) => spec_dec_statuses(children@) == Some(v@),
            Err(_) => spec_dec_statuses(children@) is None,
        },
{
    let n = children.len();
    let mut acc: Vec<RgpStatus> = Vec::new();
    let mut i: usize = 0;
    proof {
        assert(children@.skip(0) =~= children@);
    }
    while i < n
        invariant
            i <= n == children@.len(),
            match spec_dec_statuses(children@.skip(i as int)) {
                Some(rest) => spec_dec_statuses(children@) == Some(acc@ + rest),
                None => spec_dec_statuses(children@) is None,
            },
        decreases n - i,
    {
        let c = &children[i];
        proof {
            assert(children@.skip(i as int)[0] == children@[i as int]);
            assert(children@.skip(i as int).drop_first() =~= children@.skip(i as int + 1));
        }
        if !c.has_name("rgp:rgpStatus", "rgpStatus") {
            return Err(ParseError::UnexpectedElement(c.name.clone()));
        }
        let v = match c.find_attr("s", "s") {
            Some(v) => v,
            None => {
                return Err(ParseError::MissingAttribute("s".to_owned()));
            },
        };
        let st = match RgpStatus::parse(v) {
            Some(st) => st,
            None => {
                return Err(ParseError::InvalidText(v.clone()));
            },
        };
        let ghost old_acc = acc@;
        acc.push(st);
        proof {
            match spec_dec_statuses(children@.skip(i as int + 1)) {
                Some(rest) => {
                    assert(old_acc + (seq![st] + rest) =~= acc@ + rest);
                },
                None => {},
            }
        }
        i += 1;
    }
    proof {
        assert(children@.skip(n as int).len() == 0);
        assert(acc@ + Seq::<RgpStatus>::empty() =~= acc@);
    }
    Ok(acc)
}

/// Encodes an ordered status sequence as status elements.
fn encode_statuses(sts: &Vec<RgpStatus>) -> (r: Vec<XmlElement>)
    ensures
        r@.len() == sts@.len(),
        forall|i: int| 0 <= i < sts@.len() ==> is_status_elem(#[trigger] r@[i], sts@[i], true),
{
    let n = sts.len();
    let mut out: Vec<XmlElement> = Vec::new();
    let mut i: usize = 0;
    while i < n
        invariant
            i <= n == sts@.len(),
            out@.len() == i,
            forall|j: int| 0 <= j < i ==> is_status_elem(#[trigger] out@[j], sts@[j], true),
        decreases n - i,
    {
        let mut attrs: Vec<XmlAttr> = Vec::new();
        attrs.push(attr("s", sts[i].token()));
        out.push(XmlElement::node_elem("rgp:rgpStatus", attrs, Vec::new()));
        i += 1;
    }
    out
}

impl RgpRequestUpdateResponse {
    /// Encodes the update-result shape, namespace declaration included.
    pub fn encode(&self) -> (r: XmlElement)
        ensures
            is_rgp_data_enc(r, true, self.rgp_status@, true),
    {
        let mut attrs: Vec<XmlAttr> = Vec::new();
        attrs.push(attr("xmlns:rgp", XMLNS));
        XmlElement::node_elem("rgp:upData", attrs, encode_statuses(&self.rgp_status))
    }
}

impl RgpRequestInfoResponse {
    /// Encodes the info-result shape, namespace declaration included.
    pub fn encode(&self) -> (r: XmlElement)
        ensures
            is_rgp_data_enc(r, false, self.rgp_status@, true),
    {
        let mut attrs: Vec<XmlAttr> = Vec::new();
        attrs.push(attr("xmlns:rgp", XMLNS));
        XmlElement::node_elem("rgp:infData", attrs, encode_statuses(&self.rgp_status))
    }
}

impl RgpRequestResponse {
    /// Resolves which of the two response shapes a fragment presents, by
    /// its root element name, the update-result candidate tried first, and
    /// decodes accordingly.  A fragment presenting neither candidate name
    /// fails with the unrecognized-shape error.
    pub fn decode(e: &XmlElement) -> (r: Result<RgpRequestResponse, ParseError>)
        ensures
            spec_rgp_shape_update(*e) ==> match spec_dec_statuses(e.children@) {
                Some(sts) => r matches Ok(RgpRequestResponse::Update(u)) && u.rgp_status@ == sts,
                None => r is Err,
            },
            !spec_rgp_shape_update(*e) && spec_rgp_shape_info(*e) ==> match spec_dec_statuses(
                e.children@,
            ) {
                Some(sts) => r matches Ok(RgpRequestResponse::Info(u)) && u.rgp_status@ == sts,
                None => r is Err,
            },
            !spec_rgp_shape_update(*e) && !spec_rgp_shape_info(*e) ==> r == Err::<
                RgpRequestResponse,
                ParseError,
            >(ParseError::UnrecognizedShape),
    {
        if e.has_name("rgp:upData", "upData") {
            match decode_statuses(&e.children) {
                Ok(v) => Ok(
                    RgpRequestResponse::Update(RgpRequestUpdateResponse { rgp_status: v }),
                ),
                Err(err) => Err(err),
            }
        } else if e.has_name("rgp:infData", "infData") {
            match decode_statuses(&e.children) {
                Ok(v) => Ok(RgpRequestResponse::Info(RgpRequestInfoResponse { rgp_status: v })),
                Err(err) => Err(err),
            }
        } else {
            Err(ParseError::UnrecognizedShape)
        }
    }
}

/// Every status list in the exact encoded shape decodes back to the
/// statuses it was built from, in order.
proof fn lemma_statuses_roundtrip(s: Seq<XmlElement>, sts: Seq<RgpStatus>, prefixed: bool)
    requires
        s.len() == sts.len(),
        forall|i: int| 0 <= i < sts.len() ==> is_status_elem(#[trigger] s[i], sts[i], prefixed),
    ensures
        spec_dec_statuses(s) == Some(sts),
    decreases s.len(),
{
    if s.len() == 0 {
        assert(sts =~= Seq::<RgpStatus>::empty());
    } else {
        lemma_status_roundtrip(sts[0]);
        assert(spec_find_attr(s[0].attrs@, "s"@, "s"@) == Some(s[0].attrs@[0].value@));
        assert(spec_dec_status(s[0]) == Some(sts[0]));
        lemma_statuses_roundtrip(s.drop_first(), sts.drop_first(), prefixed);
        assert(seq![sts[0]] + sts.drop_first() =~= sts);
    }
}

/// Round trip with aliasing tolerance for both response shapes: a
/// fragment in the exact encoded update-result shape resolves to the
/// update-result variant carrying its statuses, and likewise for the
/// info-result shape.
pub proof fn lemma_rgp_response_roundtrip(
    e: XmlElement,
    update_form: bool,
    sts: Seq<RgpStatus>,
    prefixed: bool,
)
    requires
        is_rgp_data_enc(e, update_form, sts, prefixed),
    ensures
        update_form ==> spec_rgp_shape_update(e),
        !update_form ==> !spec_rgp_shape_update(e) && spec_rgp_shape_info(e),
        spec_dec_statuses(e.children@) == Some(sts),
{
    reveal_strlit("rgp:upData");
    reveal_strlit("upData");
    reveal_strlit("rgp:infData");
    reveal_strlit("infData");
    assert("rgp:upData"@.len() == 10);
    assert("upData"@.len() == 6);
    assert("rgp:infData"@.len() == 11);
    assert("infData"@.len() == 7);
    lemma_statuses_roundtrip(e.children@, sts, prefixed);
}


/// Whether `resp` is exactly what resolving `e` yields: the variant named
/// by `e`'s root element, carrying `e`'s statuses in order.
pub open spec fn rgp_response_matches(e: XmlElement, resp: RgpRequestResponse) -> bool {
    match resp {
        RgpRequestResponse::Update(u) => spec_rgp_shape_update(e) && spec_dec_statuses(e.children@)
            == Some(u.rgp_status@),
        RgpRequestResponse::Info(u) => !spec_rgp_shape_update(e) && spec_rgp_shape_info(e)
            && spec_dec_statuses(e.children@) == Some(u.rgp_status@),
    }
}

/// Whether resolving `e` succeeds: one of the candidate root names is
/// present and every child is a well-formed status element.
pub open spec fn spec_rgp_resolvable(e: XmlElement) -> bool {
    &&& spec_rgp_shape_update(e) || spec_rgp_shape_info(e)
    &&& spec_dec_statuses(e.children@) is Some
}

impl Update<RgpRequestResponse> {
    /// Decodes a response extension fragment: an `update` wrapper in the
    /// grace-period namespace whose first child resolves to one of the two
    /// response shapes.
    pub fn decode(e: &XmlElement) -> (r: Result<Update<RgpRequestResponse>, ParseError>)
        ensures
            match r {
                Ok(u) => name_matches(e.name@, "rgp:update"@, "update"@) && e.children@.len() >= 1
                    && rgp_response_matches(e.children@[0], u.data),
                Err(_) => !name_matches(e.name@, "rgp:update"@, "update"@) || e.children@.len()
                    == 0 || !spec_rgp_resolvable(e.children@[0]),
            },
    {
        if !e.has_name("rgp:update", "update") {
            return Err(ParseError::UnexpectedElement(e.name.clone()));
        }
        if e.children.len() == 0 {
            return Err(ParseError::MissingElement("upData".to_owned()));
        }
        match RgpRequestResponse::decode(&e.children[0]) {
            Ok(data) => Ok(Update { data }),
            Err(err) => Err(err),
        }
    }
}

} // verus!
