//! Element-tree model of XML fragments, and the lenient lookup helpers the
//! per-type codecs build on.
//!
//! Every wire-facing type encodes into an [`XmlElement`] tree and decodes
//! from one.  Decoding is lenient about element and attribute names: every
//! name that carries a namespace prefix on encode also matches as its bare
//! local name, so a document presenting the unprefixed form decodes exactly
//! like the prefixed one.

use vstd::prelude::*;

verus! {

/// One attribute of an element: a name (possibly prefixed) and a value.
#[derive(Debug, Clone, PartialEq, Eq)]
pub struct XmlAttr {
    pub name: String,
    pub value: String,
}

/// One element of a document tree: a name (possibly prefixed), attributes,
/// optional character content, and child elements.
#[derive(Debug, PartialEq, Eq)]
pub struct XmlElement {
    pub name: String,
    pub attrs: Vec<XmlAttr>,
    pub text: Option<String>,
    pub children: Vec<XmlElement>,
}

/// Lenient name comparison: a name matches either the primary (prefixed)
/// form or its bare alias.
pub open spec fn name_matches(name: Seq<char>, primary: Seq<char>, alias: Seq<char>) -> bool {
    name == primary || name == alias
}

/// The first child element whose name matches `primary` or `alias`, if any.
pub open spec fn spec_find_child(
    s: Seq<XmlElement>,
    primary: Seq<char>,
    alias: Seq<char>,
) -> Option<XmlElement>
    decreases s.len(),
{
    if s.len() == 0 {
        None
    } else if name_matches(s[0].name@, primary, alias) {
        Some(s[0])
    } else {
        spec_find_child(s.drop_first(), primary, alias)
    }
}

/// The value of the first attribute whose name matches `primary` or
/// `alias`, if any.
pub open spec fn spec_find_attr(
    s: Seq<XmlAttr>,
    primary: Seq<char>,
    alias: Seq<char>,
) -> Option<Seq<char>>
    decreases s.len(),
{
    if s.len() == 0 {
        None
    } else if name_matches(s[0].name@, primary, alias) {
        Some(s[0].value@)
    } else {
        spec_find_attr(s.drop_first(), primary, alias)
    }
}

/// Skipping a prefix of children none of which matches does not change
/// what is found.
proof fn lemma_find_child_skip(s: Seq<XmlElement>, primary: Seq<char>, alias: Seq<char>, i: int)
    requires
        0 <= i <= s.len(),
        forall|j: int| 0 <= j < i ==> !name_matches(#[trigger] s[j].name@, primary, alias),
    ensures
        spec_find_child(s, primary, alias) == spec_find_child(s.skip(i), primary, alias),
    decreases i,
{
    if i > 0 {
        assert(!name_matches(s[0].name@, primary, alias));
        lemma_find_child_skip(s.drop_first(), primary, alias, i - 1);
        assert(s.drop_first().skip(i - 1) =~= s.skip(i));
    } else {
        assert(s.skip(0) =~= s);
    }
}

proof fn lemma_find_attr_skip(s: Seq<XmlAttr>, primary: Seq<char>, alias: Seq<char>, i: int)
    requires
        0 <= i <= s.len(),
        forall|j: int| 0 <= j < i ==> !name_matches(#[trigger] s[j].name@, primary, alias),
    ensures
        spec_find_attr(s, primary, alias) == spec_find_attr(s.skip(i), primary, alias),
    decreases i,
{
    if i > 0 {
        assert(!name_matches(s[0].name@, primary, alias));
        lemma_find_attr_skip(s.drop_first(), primary, alias, i - 1);
        assert(s.drop_first().skip(i - 1) =~= s.skip(i));
    } else {
        assert(s.skip(0) =~= s);
    }
}

/// Whether the view of `a` equals the view of `b`.
pub fn str_eq(a: &String, b: &str) -> (r: bool)
    ensures
        r == (a@ == b@),
{
    let bs: String = b.to_owned();
    a.eq(&bs)
}

impl XmlElement {
    /// A leaf element carrying only character content.
    pub fn text_elem(name: &str, text: &str) -> (r: XmlElement)
        ensures
            r.name@ == name@,
            r.attrs@.len() == 0,
            r.text matches Some(t) && t@ == text@,
            r.children@.len() == 0,
    {
        XmlElement {
            name: name.to_owned(),
            attrs: Vec::new(),
            text: Some(text.to_owned()),
            children: Vec::new(),
        }
    }

    /// An element with attributes and child elements and no character
    /// content.
    pub fn node_elem(name: &str, attrs: Vec<XmlAttr>, children: Vec<XmlElement>) -> (r: XmlElement)
        ensures
            r.name@ == name@,
            r.attrs == attrs,
            r.text is None,
            r.children == children,
    {
        XmlElement { name: name.to_owned(), attrs, text: None, children }
    }

    /// Whether this element's name matches `primary` or its bare `alias`.
    pub fn has_name(&self, primary: &str, alias: &str) -> (r: bool)
        ensures
            r == name_matches(self.name@, primary@, alias@),
    {
        str_eq(&self.name, primary) || str_eq(&self.name, alias)
    }

    /// The first child element whose name matches `primary` or `alias`.
    pub fn find_child<'a>(&'a self, primary: &str, alias: &str) -> (r: Option<&'a XmlElement>)
        ensures
            match r {
                Some(c) => spec_find_child(self.children@, primary@, alias@) == Some(*c),
                None => spec_find_child(self.children@, primary@, alias@) is None,
            },
    {
        let n = self.children.len();
        let mut i: usize = 0;
        while i < n
            invariant
                i <= n == self.children@.len(),
                forall|j: int|
                    0 <= j < i ==> !name_matches(
                        #[trigger] self.children@[j].name@,
                        primary@,
                        alias@,
                    ),
            decreases n - i,
        {
            let c = &self.children[i];
            if c.has_name(primary, alias) {
                proof {
                    lemma_find_child_skip(self.children@, primary@, alias@, i as int);
                    assert(self.children@.skip(i as int)[0] == self.children@[i as int]);
                }
                return Some(c);
            }
            i += 1;
        }
        proof {
            lemma_find_child_skip(self.children@, primary@, alias@, n as int);
            assert(self.children@.skip(n as int).len() == 0);
        }
        None
    }

    /// The value of the first attribute whose name matches `primary` or
    /// `alias`.
    pub fn find_attr<'a>(&'a self, primary: &str, alias: &str) -> (r: Option<&'a String>)
        ensures
            match r {
                Some(v) => spec_find_attr(self.attrs@, primary@, alias@) == Some(v@),
                None => spec_find_attr(self.attrs@, primary@, alias@) is None,
            },
    {
        let n = self.attrs.len();
        let mut i: usize = 0;
        while i < n
            invariant
                i <= n == self.attrs@.len(),
                forall|j: int|
                    0 <= j < i ==> !name_matches(#[trigger] self.attrs@[j].name@, primary@, alias@),
            decreases n - i,
        {
            let a = &self.attrs[i];
            if str_eq(&a.name, primary) || str_eq(&a.name, alias) {
                proof {
                    lemma_find_attr_skip(self.attrs@, primary@, alias@, i as int);
                    assert(self.attrs@.skip(i as int)[0] == self.attrs@[i as int]);
                }
                return Some(&a.value);
            }
            i += 1;
        }
        proof {
            lemma_find_attr_skip(self.attrs@, primary@, alias@, n as int);
            assert(self.attrs@.skip(n as int).len() == 0);
        }
        None
    }
}

/// A single attribute, built from string slices.
pub fn attr(name: &str, value: &str) -> (r: XmlAttr)
    ensures
        r.name@ == name@,
        r.value@ == value@,
{
    XmlAttr { name: name.to_owned(), value: value.to_owned() }
}

} // verus!
