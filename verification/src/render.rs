//! Canonical text rendering of an element tree: attributes in order,
//! character content and attribute values escaped, childless contentless
//! elements self-closed.

use vstd::prelude::*;

use crate::xml::{XmlAttr, XmlElement};

verus! {

/// The escaped text of one character: the five XML entities for the
/// characters they stand for, every other character itself.
pub open spec fn spec_escape_char(c: char) -> Seq<char> {
    if c == '<' {
        "&lt;"@
    } else if c == '>' {
        "&gt;"@
    } else if c == '&' {
        "&amp;"@
    } else if c == '"' {
        "&quot;"@
    } else if c == '\'' {
        "&apos;"@
    } else {
        seq![c]
    }
}

/// The escaped text of `s`: every character escaped, in order.
pub open spec fn spec_escape(s: Seq<char>) -> Seq<char>
    decreases s.len(),
{
    if s.len() == 0 {
        Seq::<char>::empty()
    } else {
        spec_escape_char(s[0]) + spec_escape(s.drop_first())
    }
}

/// The rendered text of one attribute: a leading space, the name, and the
/// escaped value in double quotes.
pub open spec fn spec_render_attr(a: XmlAttr) -> Seq<char> {
    seq![' '] + a.name@ + seq!['=', '"'] + spec_escape(a.value@) + seq!['"']
}

/// The rendered text of the first `i` attributes, in order.
pub open spec fn spec_render_attrs_upto(s: Seq<XmlAttr>, i: int) -> Seq<char>
    decreases i,
{
    if i <= 0 {
        Seq::<char>::empty()
    } else {
        spec_render_attrs_upto(s, i - 1) + spec_render_attr(s[i - 1])
    }
}

/// The rendered text of an element: its tag with its attributes, then its
/// escaped character content and its children, in order; an element with
/// neither is self-closed.
pub open spec fn spec_render_elem(e: XmlElement) -> Seq<char>
    decreases e, 2int, 0int,
{
    let open_tag = seq!['<'] + e.name@ + spec_render_attrs_upto(e.attrs@, e.attrs@.len() as int);
    let content = match e.text {
        Some(t) => spec_escape(t@),
        None => Seq::<char>::empty(),
    } + spec_render_children_upto(e, e.children@.len() as int);
    if e.text is None && e.children@.len() == 0 {
        open_tag + seq!['/', '>']
    } else {
        open_tag + seq!['>'] + content + seq!['<', '/'] + e.name@ + seq!['>']
    }
}

/// The rendered text of the first `i` children of `e`, in order.
pub open spec fn spec_render_children_upto(e: XmlElement, i: int) -> Seq<char>
    decreases e, 1int, i,
{
    if i <= 0 || i > e.children@.len() {
        Seq::<char>::empty()
    } else {
        spec_render_children_upto(e, i - 1) + spec_render_elem(e.children@[i - 1])
    }
}

/// Relies on char::to_string of std: the returned string holds exactly
/// this one character.
#[verifier::external_body]
fn char_to_string(c: char) -> (r: String)
    ensures
        r@ == seq![c],
{
    c.to_string()
}

/// The escaped text of one character.
fn escape_char_string(c: char) -> (r: String)
    ensures
        r@ == spec_escape_char(c),
{
    proof {
        reveal_strlit("&lt;");
        reveal_strlit("&gt;");
        reveal_strlit("&amp;");
        reveal_strlit("&quot;");
        reveal_strlit("&apos;");
    }
    match c {
        '<' => "&lt;".to_owned(),
        '>' => "&gt;".to_owned(),
        '&' => "&amp;".to_owned(),
        '"' => "&quot;".to_owned(),
        '\'' => "&apos;".to_owned(),
        _ => char_to_string(c),
    }
}

/// Appends the escaped text of `s` to `out`.
fn append_escaped(out: &mut String, s: &str)
    ensures
        final(out)@ == old(out)@ + spec_escape(s@),
{
    let n = s.unicode_len();
    let mut i: usize = 0;
    proof {
        assert(old(out)@ + Seq::<char>::empty() =~= old(out)@);
        assert(s@.skip(0) =~= s@);
    }
    while i < n
        invariant
            i <= n == s@.len(),
            out@ + spec_escape(s@.skip(i as int)) == old(out)@ + spec_escape(s@),
        decreases n - i,
    {
        let c = s.get_char(i);
        let ghost pre = out@;
        let cs = escape_char_string(c);
        out.append(cs.as_str());
        proof {
            assert(s@.skip(i as int)[0] == s@[i as int]);
            assert(s@.skip(i as int).drop_first() =~= s@.skip(i as int + 1));
            assert(pre + (spec_escape_char(c) + spec_escape(s@.skip(i as int + 1))) =~= out@
                + spec_escape(s@.skip(i as int + 1)));
        }
        i += 1;
    }
    proof {
        assert(spec_escape(s@.skip(n as int)) =~= Seq::<char>::empty());
        assert(out@ + Seq::<char>::empty() =~= out@);
    }
}

impl XmlElement {
    /// Renders the element tree as canonical document text.
    pub fn render(&self) -> (r: String)
        ensures
            r@ == spec_render_elem(*self),
        decreases *self,
    {
        let mut out = String::new();
        out.append("<");
        out.append(self.name.as_str());
        let na = self.attrs.len();
        let mut i: usize = 0;
        proof {
            reveal_strlit("<");
            assert(out@ =~= seq!['<'] + self.name@ + spec_render_attrs_upto(self.attrs@, 0));
        }
        while i < na
            invariant
                i <= na == self.attrs@.len(),
                out@ == seq!['<'] + self.name@ + spec_render_attrs_upto(self.attrs@, i as int),
            decreases na - i,
        {
            let ghost pre = out@;
            out.append(" ");
            out.append(self.attrs[i].name.as_str());
            out.append("=\"");
            append_escaped(&mut out, self.attrs[i].value.as_str());
            out.append("\"");
            proof {
                reveal_strlit(" ");
                reveal_strlit("=\"");
                reveal_strlit("\"");
                assert(out@ =~= pre + spec_render_attr(self.attrs@[i as int]));
                assert(out@ =~= seq!['<'] + self.name@ + spec_render_attrs_upto(
                    self.attrs@,
                    i as int + 1,
                ));
            }
            i += 1;
        }
        let has_text = self.text.is_some();
        let nc = self.children.len();
        if !has_text && nc == 0 {
            out.append("/>");
            proof {
                reveal_strlit("/>");
                assert(out@ =~= spec_render_elem(*self));
            }
            return out;
        }
        out.append(">");
        proof {
            reveal_strlit(">");
        }
        let ghost open_len = out@.len();
        let ghost opened = out@;
        match &self.text {
            Some(t) => {
                append_escaped(&mut out, t.as_str());
            },
            None => {},
        }
        let ghost with_text = out@;
        let mut j: usize = 0;
        proof {
            assert(with_text =~= with_text + spec_render_children_upto(*self, 0));
        }
        while j < nc
            invariant
                j <= nc == self.children@.len(),
                out@ == with_text + spec_render_children_upto(*self, j as int),
            decreases nc - j,
        {
            let ghost pre = out@;
            let cs = self.children[j].render();
            out.append(cs.as_str());
            proof {
                assert(out@ =~= with_text + spec_render_children_upto(*self, j as int + 1));
            }
            j += 1;
        }
        out.append("</");
        out.append(self.name.as_str());
        out.append(">");
        proof {
            reveal_strlit("</");
            reveal_strlit(">");
            assert(out@ =~= spec_render_elem(*self));
        }
        out
    }
}

} // verus!
