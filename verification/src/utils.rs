//! Small collaborators of the generator: documentation-string extraction
//! and whitespace trimming of a module name.

use vstd::prelude::*;
use vstd::string::{StrSliceExecFns, StringExecFns};

use crate::ast::{Attribute, Lit, MetaItem};

verus! {

/// Whitespace trimmed around a module name.
pub open spec fn is_trim_ws(c: char) -> bool {
    c == ' ' || c == '\t' || c == '\n' || c == '\r'
}

/// The first index at or after `i` holding a non-whitespace character, or
/// the length.
pub open spec fn ws_prefix_end(s: Seq<char>, i: int) -> int
    decreases s.len() - i,
{
    if i < 0 || i >= s.len() {
        s.len() as int
    } else if is_trim_ws(s[i]) {
        ws_prefix_end(s, i + 1)
    } else {
        i
    }
}

/// The index one past the last non-whitespace character strictly before
/// `i`, or zero.
pub open spec fn ws_suffix_start(s: Seq<char>, i: int) -> int
    decreases i,
{
    if i <= 0 || i > s.len() {
        0
    } else if is_trim_ws(s[i - 1]) {
        ws_suffix_start(s, i - 1)
    } else {
        i
    }
}

/// `s` without leading and trailing whitespace.
pub open spec fn trim_view(s: Seq<char>) -> Seq<char> {
    let a = ws_prefix_end(s, 0);
    let b = ws_suffix_start(s, s.len() as int);
    if a < b {
        s.subrange(a, b)
    } else {
        Seq::empty()
    }
}

/// Whether a character is trimmed.
pub fn is_ws_char(c: char) -> (r: bool)
    ensures
        r == is_trim_ws(c),
{
    c == ' ' || c == '\t' || c == '\n' || c == '\r'
}

/// The start of the trimmed region never lies past `i`.
proof fn lemma_ws_suffix_start_le(s: Seq<char>, i: int)
    requires
        0 <= i <= s.len(),
    ensures
        0 <= ws_suffix_start(s, i) <= i,
    decreases i,
{
    if i > 0 && is_trim_ws(s[i - 1]) {
        lemma_ws_suffix_start_le(s, i - 1);
    }
}

/// Strips leading and trailing whitespace.
pub fn trim_str(s: &str) -> (r: String)
    ensures
        r@ == trim_view(s@),
{
    let n = s.unicode_len();
    let mut a: usize = 0;
    loop
        invariant
            a <= n,
            n == s@.len(),
            ws_prefix_end(s@, 0) == ws_prefix_end(s@, a as int),
        ensures
            a <= n,
            n == s@.len(),
            ws_prefix_end(s@, 0) == ws_prefix_end(s@, a as int),
            a == n || !is_trim_ws(s@[a as int]),
        decreases n - a,
    {
        if a == n {
            break;
        }
        if !is_ws_char(s.get_char(a)) {
            break;
        }
        a += 1;
    }
    if a == n {
        proof {
            assert(ws_prefix_end(s@, n as int) == n as int);
            lemma_ws_suffix_start_le(s@, n as int);
        }
        return String::new();
    }
    let mut b: usize = n;
    loop
        invariant
            a < b <= n,
            n == s@.len(),
            !is_trim_ws(s@[a as int]),
            ws_suffix_start(s@, n as int) == ws_suffix_start(s@, b as int),
        ensures
            a < b <= n,
            n == s@.len(),
            ws_suffix_start(s@, n as int) == ws_suffix_start(s@, b as int),
            !is_trim_ws(s@[b - 1]),
        decreases b,
    {
        if !is_ws_char(s.get_char(b - 1)) {
            break;
        }
        proof {
            if b - 1 == a {
                assert(false);
            }
        }
        b -= 1;
    }
    let out = s.substring_char(a, b).to_owned();
    proof {
        assert(ws_prefix_end(s@, a as int) == a as int);
        assert(ws_suffix_start(s@, b as int) == b as int);
    }
    out
}

/// The documentation text carried by the `doc` attributes of a declaration,
/// in order, joined by line breaks.
pub open spec fn doc_view(attrs: Seq<Attribute>) -> Seq<char>
    decreases attrs.len(),
{
    if attrs.len() == 0 {
        Seq::empty()
    } else {
        let rest = doc_view(attrs.drop_last());
        match attrs.last().value {
            MetaItem::NameValue(k, Lit::Str(s)) => if k@ == "doc"@ {
                if rest.len() == 0 {
                    s@
                } else {
                    rest + "\n"@ + s@
                }
            } else {
                rest
            },
            _ => rest,
        }
    }
}

/// Extracts the documentation string of a declaration from its attributes.
pub fn get_doc(attrs: &Vec<Attribute>) -> (r: String)
    ensures
        r@ == doc_view(attrs@),
{
    let doc_key = String::from_str("doc");
    let mut out = String::new();
    let mut i: usize = 0;
    while i < attrs.len()
        invariant
            i <= attrs@.len(),
            doc_key@ == "doc"@,
            out@ == doc_view(attrs@.subrange(0, i as int)),
        decreases attrs@.len() - i,
    {
        let ghost prefix = attrs@.subrange(0, i as int);
        match &attrs[i].value {
            MetaItem::NameValue(k, Lit::Str(s)) => {
                if *k == doc_key {
                    if out.as_str().is_empty() {
                        out = s.clone();
                    } else {
                        out.append("\n");
                        out.append(s.as_str());
                    }
                }
            },
            _ => {},
        }
        proof {
            assert(attrs@.subrange(0, i as int + 1).drop_last() =~= prefix);
            assert(attrs@.subrange(0, i as int + 1).last() == attrs@[i as int]);
        }
        i += 1;
    }
    proof {
        assert(attrs@.subrange(0, attrs@.len() as int) =~= attrs@);
    }
    out
}

}
