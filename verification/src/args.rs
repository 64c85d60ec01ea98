//! Parsing of the trailing entries of a wrapper directive into override
//! hints.
//!
//! Each recognized entry names one argument: a bare word makes it optional
//! with its type default, `name = literal` registers an explicit default.
//! Entries of any other shape carry no hint and are ignored.

use vstd::prelude::*;

use crate::ast::{Lit, NestedMeta, PyValue};
use crate::method::ArgHint;

verus! {

/// The runtime value a directive literal stands for.
pub open spec fn spec_lit_value(l: Lit) -> PyValue {
    match l {
        Lit::Str(s) => PyValue::Str(s),
        Lit::Int(i) => PyValue::Int(i),
        Lit::Bool(b) => PyValue::Bool(b),
    }
}

/// The runtime value a directive literal stands for.
pub fn lit_value(l: &Lit) -> (r: PyValue)
    ensures
        r == spec_lit_value(*l),
{
    match l {
        Lit::Str(s) => PyValue::Str(s.clone()),
        Lit::Int(i) => PyValue::Int(*i),
        Lit::Bool(b) => PyValue::Bool(*b),
    }
}

/// The hint carried by one directive entry, if it carries one.
pub open spec fn spec_hint_of(m: NestedMeta) -> Option<ArgHint> {
    match m {
        NestedMeta::Word(n) => Some(ArgHint { name: n, default: None }),
        NestedMeta::Assign(n, l) => Some(ArgHint { name: n, default: Some(spec_lit_value(l)) }),
        NestedMeta::Lit(_) => None,
    }
}

/// The hints carried by the entries of `metas` from index `start` on, in
/// order.
pub open spec fn spec_parse_arguments(metas: Seq<NestedMeta>, start: int) -> Seq<ArgHint>
    decreases metas.len() - start,
{
    if start < 0 || start >= metas.len() {
        Seq::empty()
    } else {
        let rest = spec_parse_arguments(metas, start + 1);
        match spec_hint_of(metas[start]) {
            Some(h) => seq![h] + rest,
            None => rest,
        }
    }
}

/// Collects the override hints of the directive entries from index `start`
/// on, in order of appearance.
pub fn parse_arguments(metas: &Vec<NestedMeta>, start: usize) -> (r: Vec<ArgHint>)
    ensures
        r@ == spec_parse_arguments(metas@, start as int),
{
    let n = metas.len();
    let mut out: Vec<ArgHint> = Vec::new();
    if start >= n {
        assert(out@ =~= spec_parse_arguments(metas@, start as int));
        return out;
    }
    // Build back to front so that each step prepends to an already parsed
    // suffix, matching the recursive description.
    let mut i: usize = n;
    let mut rev: Vec<ArgHint> = Vec::new();
    while i > start
        invariant
            start <= i <= n,
            n == metas@.len(),
            // `rev` holds, reversed, the hints of metas[i..]
            rev@.reverse() =~= spec_parse_arguments(metas@, i as int),
        decreases i,
    {
        i -= 1;
        let ghost before = rev@;
        match &metas[i] {
            NestedMeta::Word(nm) => {
                rev.push(ArgHint { name: nm.clone(), default: None });
            }
            NestedMeta::Assign(nm, l) => {
                rev.push(ArgHint { name: nm.clone(), default: Some(lit_value(l)) });
            }
            NestedMeta::Lit(_) => {}
        }
        proof {
            match spec_hint_of(metas@[i as int]) {
                Some(h) => {
                    assert(rev@ == before.push(h));
                    assert(rev@.reverse() =~= seq![h] + before.reverse());
                }
                None => {
                    assert(rev@ == before);
                }
            }
            assert(rev@.reverse() =~= spec_parse_arguments(metas@, i as int));
        }
    }
    // Reverse into declaration order.
    let mut j: usize = rev.len();
    while j > 0
        invariant
            j <= rev@.len(),
            out@.len() == rev@.len() - j,
            forall|k: int| 0 <= k < out@.len() ==> out@[k] == rev@.reverse()[k],
        decreases j,
    {
        j -= 1;
        let h = match &rev[j] {
            ArgHint { name, default } => {
                let d = match default {
                    Some(v) => Some(v.dup()),
                    None => None,
                };
                ArgHint { name: name.clone(), default: d }
            }
        };
        proof {
            assert(h == rev@[j as int]);
            assert(rev@.reverse()[rev@.len() - 1 - j as int] == rev@[j as int]);
        }
        out.push(h);
    }
    proof {
        assert(out@ =~= rev@.reverse());
    }
    out
}

}
