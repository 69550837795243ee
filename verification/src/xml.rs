//! Rendering of XML element text, escaped as the SOAP replies need it.

use vstd::prelude::*;
use crate::text::{push_char, to_chars};

verus! {

/// The escaped form of one character in element text: `&`, `<`, `>` and
/// carriage return become character references, others stay.
pub open spec fn escape_char_spec(c: char) -> Seq<char> {
    if c == '&' {
        "&amp;"@
    } else if c == '<' {
        "&lt;"@
    } else if c == '>' {
        "&gt;"@
    } else if c == '\r' {
        "&#13;"@
    } else {
        seq![c]
    }
}

/// Element text with every character escaped.
pub open spec fn escape_text_spec(s: Seq<char>) -> Seq<char>
    decreases s.len(),
{
    if s.len() == 0 {
        Seq::empty()
    } else {
        escape_text_spec(s.drop_last()) + escape_char_spec(s.last())
    }
}

/// Escapes element text.
pub fn escape_text(s: &str) -> (r: String)
    ensures
        r@ == escape_text_spec(s@),
{
    let v = to_chars(s);
    let n = v.len();
    let mut out = String::new();
    for i in 0..n
        invariant
            n == v.len(),
            v@ == s@,
            out@ == escape_text_spec(s@.take(i as int)),
    {
        assert(s@.take(i + 1).drop_last() =~= s@.take(i as int));
        let c = v[i];
        if c == '&' {
            out.append("&amp;");
        } else if c == '<' {
            out.append("&lt;");
        } else if c == '>' {
            out.append("&gt;");
        } else if c == '\r' {
            out.append("&#13;");
        } else {
            push_char(&mut out, c);
        }
    }
    assert(s@.take(n as int) =~= s@);
    out
}

/// `<name>text</name>` with the text escaped.
pub open spec fn element_spec(name: Seq<char>, text: Seq<char>) -> Seq<char> {
    "<"@ + name + ">"@ + text + "</"@ + name + ">"@
}

/// `<name>inner</name>` with `inner` already rendered.
pub fn element(name: &str, inner: &str) -> (r: String)
    ensures
        r@ == element_spec(name@, inner@),
{
    let mut out = String::from_str("<");
    out.append(name);
    out.append(">");
    out.append(inner);
    out.append("</");
    out.append(name);
    out.append(">");
    out
}


/// The characters that escaping rewrites.
pub open spec fn special(c: char) -> bool {
    c == '&' || c == '<' || c == '>' || c == '\r'
}

/// Escaped text holds no `<`, `>` or carriage return, is never shorter than
/// the text, and a text without `&`, `<`, `>` or carriage return is its
/// own escaped form.
pub proof fn escape_text_law(s: Seq<char>)
    ensures
        !escape_text_spec(s).contains('<'),
        !escape_text_spec(s).contains('>'),
        !escape_text_spec(s).contains('\r'),
        escape_text_spec(s).len() >= s.len(),
        (forall|i: int| 0 <= i < s.len() ==> !special(#[trigger] s[i])) ==> escape_text_spec(s) == s,
    decreases s.len(),
{
    reveal_strlit("&amp;");
    reveal_strlit("&lt;");
    reveal_strlit("&gt;");
    reveal_strlit("&#13;");
    if s.len() > 0 {
        let init = s.drop_last();
        escape_text_law(init);
        let e0 = escape_text_spec(init);
        let tail = escape_char_spec(s.last());
        let e = e0 + tail;
        assert(escape_text_spec(s) == e);
        assert forall|x: char| (x == '<' || x == '>' || x == '\r') implies !e.contains(x) by {
            if e.contains(x) {
                let k = choose|k: int| 0 <= k < e.len() && e[k] == x;
                if k < e0.len() {
                    assert(e0[k] == x);
                } else {
                    assert(tail[k - e0.len()] == x);
                }
            }
        }
        if forall|i: int| 0 <= i < s.len() ==> !special(#[trigger] s[i]) {
            assert forall|i: int| 0 <= i < init.len() implies !special(#[trigger] init[i]) by {
                assert(init[i] == s[i]);
            }
            assert(!special(s[s.len() - 1]));
            assert(e =~= s);
        }
    }
}

} // verus!
