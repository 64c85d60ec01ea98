//! Argument binding: the marshaling behaviour of a generated entry point.
//!
//! A call arrives as a positional tuple and a keyword table of runtime
//! objects.  Each descriptor is resolved by name against the keyword table
//! first, then against its positional slot in declaration order (the context
//! handle consumes no slot), then against its default if it is optional;
//! otherwise the call fails with an error naming the argument.  A resolved
//! object is converted to the declared native type; a conversion failure is
//! tagged with the argument name and the wrapped function's diagnostic
//! location.  Resolution order is declaration order, so the reported error is
//! deterministic.

use vstd::prelude::*;

use crate::ast::{NativeTy, PyVal, PyValue, TyRef};
use crate::method::{descriptors_wf, ArgHint, FnArg, FnDesc};

verus! {

/// One binding produced for the native call site: the ambient execution
/// context, or a converted native value.
#[derive(Debug, PartialEq, Eq)]
pub enum Resolved {
    Ctx,
    Val(PyValue),
}

/// Spec-level shape of a [`Resolved`] binding.
pub enum RVal {
    Ctx,
    Val(PyVal),
}

impl View for Resolved {
    type V = RVal;

    open spec fn view(&self) -> RVal {
        match self {
            Resolved::Ctx => RVal::Ctx,
            Resolved::Val(v) => RVal::Val(v@),
        }
    }
}

/// An argument-resolution failure, tagged for diagnostics with the argument
/// name and the wrapped function's location string.
#[derive(Debug, PartialEq, Eq)]
pub enum CallError {
    Missing { arg: String, location: String },
    Conversion { arg: String, location: String },
}

/// Spec-level shape of a [`CallError`].
pub enum CallErrV {
    Missing { arg: Seq<char>, location: Seq<char> },
    Conversion { arg: Seq<char>, location: Seq<char> },
}

impl View for CallError {
    type V = CallErrV;

    open spec fn view(&self) -> CallErrV {
        match self {
            CallError::Missing { arg, location } => CallErrV::Missing {
                arg: arg@,
                location: location@,
            },
            CallError::Conversion { arg, location } => CallErrV::Conversion {
                arg: arg@,
                location: location@,
            },
        }
    }
}

/// The diagnostic text of an argument-resolution error.
pub open spec fn error_message(e: CallErrV) -> Seq<char> {
    match e {
        CallErrV::Missing { arg, location } => location + ": missing required argument '"@ + arg
            + "'"@,
        CallErrV::Conversion { arg, location } => location + ": cannot convert argument '"@ + arg
            + "'"@,
    }
}

/// The keyword-argument table of a call, as handed over by the calling
/// convention.
#[derive(Debug, PartialEq, Eq)]
pub struct KwArgs {
    pub entries: Vec<(String, PyValue)>,
}

impl View for KwArgs {
    type V = Seq<(Seq<char>, PyVal)>;

    open spec fn view(&self) -> Seq<(Seq<char>, PyVal)> {
        Seq::new(self.entries@.len(), |i: int| (self.entries@[i].0@, self.entries@[i].1@))
    }
}

/// First value registered under `name`, if any.
pub open spec fn kw_lookup(kw: Seq<(Seq<char>, PyVal)>, name: Seq<char>) -> Option<PyVal>
    decreases kw.len(),
{
    if kw.len() == 0 {
        None
    } else if kw[0].0 == name {
        Some(kw[0].1)
    } else {
        kw_lookup(kw.drop_first(), name)
    }
}

impl KwArgs {
    /// An empty table, standing in for an absent one.
    pub fn empty() -> (r: KwArgs)
        ensures
            r@ =~= Seq::<(Seq<char>, PyVal)>::empty(),
    {
        KwArgs { entries: Vec::new() }
    }

    /// Looks `name` up, returning a copy of the first value registered under
    /// it.
    pub fn lookup(&self, name: &String) -> (r: Option<PyValue>)
        ensures
            r is Some <==> kw_lookup(self@, name@) is Some,
            r matches Some(v) ==> kw_lookup(self@, name@) == Some(v@),
    {
        let n = self.entries.len();
        let mut i: usize = 0;
        proof {
            assert(self@.skip(0int) =~= self@);
        }
        while i < n
            invariant
                i <= n,
                n == self.entries@.len(),
                kw_lookup(self@, name@) == kw_lookup(self@.skip(i as int), name@),
            decreases n - i,
        {
            proof {
                assert(self@.skip(i as int)[0] == self@[i as int]);
            }
            if self.entries[i].0 == *name {
                let v = self.entries[i].1.dup();
                proof {
                    assert(kw_lookup(self@.skip(i as int), name@) == Some(self@[i as int].1));
                }
                return Some(v);
            }
            proof {
                assert(self@.skip(i as int).drop_first() =~= self@.skip(i as int + 1));
            }
            i += 1;
        }
        proof {
            assert(self@.skip(n as int) =~= Seq::<(Seq<char>, PyVal)>::empty());
        }
        None
    }
}

/// Whether a runtime value already has the shape of a native type.
pub open spec fn val_matches(v: PyVal, nt: NativeTy) -> bool {
    match nt {
        NativeTy::Int => v is Int,
        NativeTy::Bool => v is Bool,
        NativeTy::Str => v is Str,
    }
}

/// The runtime's generic conversion facility, on the modeled value shapes: a
/// value converts to a declared type exactly when its shape matches (an
/// optional type additionally accepts the absent value).
pub open spec fn spec_convert(v: PyVal, ty: TyRef) -> Option<PyVal> {
    match ty {
        TyRef::Context => None,
        TyRef::Plain(nt) => if val_matches(v, nt) {
            Some(v)
        } else {
            None
        },
        TyRef::Optional(nt) => if v is Null || val_matches(v, nt) {
            Some(v)
        } else {
            None
        },
    }
}

/// Converts a runtime object to a declared native type.
pub fn convert_value(v: &PyValue, ty: TyRef) -> (r: Option<PyValue>)
    ensures
        r is Some <==> spec_convert(v@, ty) is Some,
        r matches Some(c) ==> spec_convert(v@, ty) == Some(c@),
{
    match ty {
        TyRef::Context => None,
        TyRef::Plain(nt) => {
            if shape_matches(v, nt) {
                Some(v.dup())
            } else {
                None
            }
        },
        TyRef::Optional(nt) => {
            let is_null = match v {
                PyValue::Null => true,
                _ => false,
            };
            if is_null || shape_matches(v, nt) {
                Some(v.dup())
            } else {
                None
            }
        },
    }
}

/// Whether a runtime object already has the shape of a native type.
pub fn shape_matches(v: &PyValue, nt: NativeTy) -> (b: bool)
    ensures
        b == val_matches(v@, nt),
{
    match (nt, v) {
        (NativeTy::Int, PyValue::Int(_)) => true,
        (NativeTy::Bool, PyValue::Bool(_)) => true,
        (NativeTy::Str, PyValue::Str(_)) => true,
        _ => false,
    }
}

/// The default registered for `name` by an override hint: `None` when no
/// hint names it, `Some(d)` when one does, `d` itself absent when the hint
/// registers no explicit value.
pub open spec fn hint_default(hints: Seq<ArgHint>, name: Seq<char>) -> Option<Option<PyVal>>
    decreases hints.len(),
{
    if hints.len() == 0 {
        None
    } else if hints[0].name@ == name {
        Some(
            match hints[0].default {
                Some(d) => Some(d@),
                None => None,
            },
        )
    } else {
        hint_default(hints.drop_first(), name)
    }
}

/// The native default of a declared type: the zero value of its shape, or
/// the absent value for an optional type.
pub open spec fn ty_default(ty: TyRef) -> PyVal {
    match ty {
        TyRef::Context => PyVal::Null,
        TyRef::Plain(NativeTy::Int) => PyVal::Int(0),
        TyRef::Plain(NativeTy::Bool) => PyVal::Bool(false),
        TyRef::Plain(NativeTy::Str) => PyVal::Str(Seq::empty()),
        TyRef::Optional(_) => PyVal::Null,
    }
}

/// The value substituted for an absent optional argument: its registered
/// default if one exists, else the native default of its type.
pub open spec fn spec_default_for(a: FnArg, hints: Seq<ArgHint>) -> PyVal {
    match hint_default(hints, a.name@) {
        Some(Some(d)) => d,
        _ => ty_default(a.ty),
    }
}

/// Whether an absent argument is substitutable: its type is optional, or an
/// override hint names it.
pub open spec fn spec_effective_optional(a: FnArg, hints: Seq<ArgHint>) -> bool {
    a.optional || hint_default(hints, a.name@) is Some
}

/// Looks up the override hint registered for `name`.
pub fn hint_default_of(hints: &Vec<ArgHint>, name: &String) -> (r: Option<Option<PyValue>>)
    ensures
        r is Some <==> hint_default(hints@, name@) is Some,
        r matches Some(d) ==> {
            &&& (d is Some <==> hint_default(hints@, name@)->0 is Some)
            &&& (d matches Some(v) ==> hint_default(hints@, name@)->0 == Some(v@))
        },
{
    let n = hints.len();
    let mut i: usize = 0;
    proof {
        assert(hints@.skip(0int) =~= hints@);
    }
    while i < n
        invariant
            i <= n,
            n == hints@.len(),
            hint_default(hints@, name@) == hint_default(hints@.skip(i as int), name@),
        decreases n - i,
    {
        proof {
            assert(hints@.skip(i as int)[0] == hints@[i as int]);
        }
        if hints[i].name == *name {
            let d = match &hints[i].default {
                Some(v) => Some(v.dup()),
                None => None,
            };
            return Some(d);
        }
        proof {
            assert(hints@.skip(i as int).drop_first() =~= hints@.skip(i as int + 1));
        }
        i += 1;
    }
    proof {
        assert(hints@.skip(n as int) =~= Seq::<ArgHint>::empty());
    }
    None
}

/// Builds the native default of a declared type.
pub fn default_value(ty: TyRef) -> (r: PyValue)
    ensures
        r@ == ty_default(ty),
{
    match ty {
        TyRef::Context => PyValue::Null,
        TyRef::Plain(NativeTy::Int) => PyValue::Int(0),
        TyRef::Plain(NativeTy::Bool) => PyValue::Bool(false),
        TyRef::Plain(NativeTy::Str) => PyValue::Str(String::new()),
        TyRef::Optional(_) => PyValue::Null,
    }
}

/// The positional slot of descriptor `i`: its index among the descriptors
/// before it that are not the context handle.
pub open spec fn pos_slot(args: Seq<FnArg>, i: int) -> int
    decreases i,
{
    if i <= 0 {
        0
    } else {
        pos_slot(args, i - 1) + if args[i - 1].py {
            0int
        } else {
            1int
        }
    }
}

/// Resolution of descriptor `i` of a call: the context handle binds
/// ambiently; any other descriptor is taken from the keyword table by name,
/// else from its positional slot, else from its default if it is optional,
/// and is converted to its declared type.
pub open spec fn spec_resolve_one(
    args: Seq<FnArg>,
    hints: Seq<ArgHint>,
    pos: Seq<PyVal>,
    kw: Seq<(Seq<char>, PyVal)>,
    loc: Seq<char>,
    i: int,
) -> Result<RVal, CallErrV> {
    let a = args[i];
    if a.py {
        Ok(RVal::Ctx)
    } else {
        let supplied = match kw_lookup(kw, a.name@) {
            Some(v) => Some(v),
            None => {
                let j = pos_slot(args, i);
                if 0 <= j < pos.len() {
                    Some(pos[j])
                } else {
                    None
                }
            },
        };
        match supplied {
            Some(v) => match spec_convert(v, a.ty) {
                Some(c) => Ok(RVal::Val(c)),
                None => Err(CallErrV::Conversion { arg: a.name@, location: loc }),
            },
            None => if spec_effective_optional(a, hints) {
                Ok(RVal::Val(spec_default_for(a, hints)))
            } else {
                Err(CallErrV::Missing { arg: a.name@, location: loc })
            },
        }
    }
}

/// All descriptors before index `n` resolve successfully.
pub open spec fn resolve_ok_upto(
    args: Seq<FnArg>,
    hints: Seq<ArgHint>,
    pos: Seq<PyVal>,
    kw: Seq<(Seq<char>, PyVal)>,
    loc: Seq<char>,
    n: int,
) -> bool {
    forall|i: int|
        0 <= i < n ==> (#[trigger] spec_resolve_one(args, hints, pos, kw, loc, i)) is Ok
}

/// `e` is the error of the first descriptor, in declaration order, that
/// fails to resolve.
pub open spec fn first_resolve_error(
    args: Seq<FnArg>,
    hints: Seq<ArgHint>,
    pos: Seq<PyVal>,
    kw: Seq<(Seq<char>, PyVal)>,
    loc: Seq<char>,
    e: CallErrV,
) -> bool {
    exists|i: int|
        #![trigger spec_resolve_one(args, hints, pos, kw, loc, i)]
        0 <= i < args.len() && resolve_ok_upto(args, hints, pos, kw, loc, i) && spec_resolve_one(
            args,
            hints,
            pos,
            kw,
            loc,
            i,
        ) == Err::<RVal, CallErrV>(e)
}

/// Resolves every descriptor of a call, in declaration order.
///
/// On success the bindings correspond one to one to the descriptors.  On
/// failure the error is the one of the first descriptor, in declaration
/// order, that fails to resolve.
pub fn resolve_arguments(
    location: &String,
    spc: &FnDesc,
    pos: &Vec<PyValue>,
    kw: &KwArgs,
) -> (r: Result<Vec<Resolved>, CallError>)
    ensures
        r is Ok <==> resolve_ok_upto(
            spc.args@,
            spc.attrs@,
            pos.deep_view(),
            kw@,
            location@,
            spc.args@.len() as int,
        ),
        r matches Ok(out) ==> out@.len() == spc.args@.len(),
        r matches Ok(out) ==> forall|i: int|
            0 <= i < spc.args@.len() ==> out@[i]@ == (#[trigger] spec_resolve_one(
                spc.args@,
                spc.attrs@,
                pos.deep_view(),
                kw@,
                location@,
                i,
            ))->Ok_0,
        r matches Err(e) ==> first_resolve_error(
            spc.args@,
            spc.attrs@,
            pos.deep_view(),
            kw@,
            location@,
            e@,
        ),
{
    let n = spc.args.len();
    let mut out: Vec<Resolved> = Vec::new();
    let mut i: usize = 0;
    let mut j: usize = 0;
    while i < n
        invariant
            i <= n,
            j <= i,
            n == spc.args@.len(),
            j as int == pos_slot(spc.args@, i as int),
            out@.len() == i,
            forall|k: int|
                0 <= k < i as int ==> (#[trigger] spec_resolve_one(
                    spc.args@,
                    spc.attrs@,
                    pos.deep_view(),
                    kw@,
                    location@,
                    k,
                )) is Ok,
            forall|k: int|
                0 <= k < i as int ==> out@[k]@ == (#[trigger] spec_resolve_one(
                    spc.args@,
                    spc.attrs@,
                    pos.deep_view(),
                    kw@,
                    location@,
                    k,
                ))->Ok_0,
        decreases n - i,
    {
        let a = &spc.args[i];
        let is_py = a.py;
        if is_py {
            out.push(Resolved::Ctx);
        } else {
            let supplied: Option<PyValue> = match kw.lookup(&a.name) {
                Some(v) => Some(v),
                None => {
                    if j < pos.len() {
                        proof {
                            assert(pos.deep_view()[j as int] == pos@[j as int]@);
                        }
                        Some(pos[j].dup())
                    } else {
                        None
                    }
                },
            };
            match supplied {
                Some(v) => {
                    match convert_value(&v, a.ty) {
                        Some(c) => {
                            out.push(Resolved::Val(c));
                        },
                        None => {
                            proof {
                                let ii = i as int;
                                assert((spec_resolve_one(
                                    spc.args@,
                                    spc.attrs@,
                                    pos.deep_view(),
                                    kw@,
                                    location@,
                                    ii,
                                )) is Err);
                                assert(!resolve_ok_upto(
                                    spc.args@,
                                    spc.attrs@,
                                    pos.deep_view(),
                                    kw@,
                                    location@,
                                    n as int,
                                )) by {
                                    if resolve_ok_upto(
                                        spc.args@,
                                        spc.attrs@,
                                        pos.deep_view(),
                                        kw@,
                                        location@,
                                        n as int,
                                    ) {
                                        assert((spec_resolve_one(
                                            spc.args@,
                                            spc.attrs@,
                                            pos.deep_view(),
                                            kw@,
                                            location@,
                                            ii,
                                        )) is Ok);
                                    }
                                }
                            }
                            return Err(
                                CallError::Conversion {
                                    arg: a.name.clone(),
                                    location: location.clone(),
                                },
                            );
                        },
                    }
                },
                None => {
                    let hd = hint_default_of(&spc.attrs, &a.name);
                    let substitutable = a.optional || match hd {
                        Some(_) => true,
                        None => false,
                    };
                    if substitutable {
                        let d = match hd {
                            Some(Some(v)) => v,
                            _ => default_value(a.ty),
                        };
                        out.push(Resolved::Val(d));
                    } else {
                            proof {
                                let ii = i as int;
                                assert((spec_resolve_one(
                                    spc.args@,
                                    spc.attrs@,
                                    pos.deep_view(),
                                    kw@,
                                    location@,
                                    ii,
                                )) is Err);
                                assert(!resolve_ok_upto(
                                    spc.args@,
                                    spc.attrs@,
                                    pos.deep_view(),
                                    kw@,
                                    location@,
                                    n as int,
                                )) by {
                                    if resolve_ok_upto(
                                        spc.args@,
                                        spc.attrs@,
                                        pos.deep_view(),
                                        kw@,
                                        location@,
                                        n as int,
                                    ) {
                                        assert((spec_resolve_one(
                                            spc.args@,
                                            spc.attrs@,
                                            pos.deep_view(),
                                            kw@,
                                            location@,
                                            ii,
                                        )) is Ok);
                                    }
                                }
                            }
                        return Err(
                            (CallError::Missing { arg: a.name.clone(), location: location.clone() }),
                        );
                    }
                },
            }
        }
        if !is_py {
            j += 1;
        }
        i += 1;
    }
    Ok(out)
}

/// One if the descriptor list begins with the execution-context handle,
/// which consumes no positional slot, else zero.
pub open spec fn ctx_base(args: Seq<FnArg>) -> int {
    if args.len() > 0 && args[0].py {
        1int
    } else {
        0int
    }
}

/// Under the descriptor invariant, the positional slot of descriptor `i` is
/// its declaration index, shifted down by one when a leading context handle
/// precedes it.
pub proof fn lemma_pos_slot_skips_context(args: Seq<FnArg>, i: int)
    requires
        descriptors_wf(args),
        0 <= i <= args.len(),
    ensures
        pos_slot(args, i) == if i == 0 {
            0int
        } else {
            i - ctx_base(args)
        },
    decreases i,
{
    if i > 0 {
        lemma_pos_slot_skips_context(args, i - 1);
    }
}

/// A call that supplies, for every parameter beyond an optional leading
/// context handle, exactly one value positionally in declaration order, and
/// a call that supplies the same values under the parameters' keyword names,
/// resolve every descriptor alike: the context handle binds ambiently, and
/// each remaining descriptor binds to the conversion of its supplied value.
pub proof fn lemma_positional_and_keyword_calls_agree(
    args: Seq<FnArg>,
    hints: Seq<ArgHint>,
    vals: Seq<PyVal>,
    kw: Seq<(Seq<char>, PyVal)>,
    loc: Seq<char>,
)
    requires
        descriptors_wf(args),
        vals.len() == args.len() - ctx_base(args),
        forall|k: int|
            ctx_base(args) <= k < args.len() ==> spec_convert(
                vals[k - ctx_base(args)],
                (#[trigger] args[k]).ty,
            ) is Some,
        forall|k: int|
            ctx_base(args) <= k < args.len() ==> kw_lookup(kw, (#[trigger] args[k]).name@)
                == Some(vals[k - ctx_base(args)]),
    ensures
        forall|i: int|
            0 <= i < args.len() ==> (#[trigger] spec_resolve_one(
                args,
                hints,
                vals,
                Seq::empty(),
                loc,
                i,
            )) == spec_resolve_one(args, hints, Seq::empty(), kw, loc, i),
        forall|i: int|
            0 <= i < args.len() ==> (#[trigger] spec_resolve_one(
                args,
                hints,
                vals,
                Seq::empty(),
                loc,
                i,
            )) == if args[i].py {
                Ok::<RVal, CallErrV>(RVal::Ctx)
            } else {
                Ok::<RVal, CallErrV>(
                    RVal::Val(spec_convert(vals[i - ctx_base(args)], args[i].ty)->0),
                )
            },
{
    let base = ctx_base(args);
    assert forall|i: int| 0 <= i < args.len() implies (#[trigger] spec_resolve_one(
        args,
        hints,
        vals,
        Seq::empty(),
        loc,
        i,
    )) == spec_resolve_one(args, hints, Seq::empty(), kw, loc, i) && spec_resolve_one(
        args,
        hints,
        vals,
        Seq::empty(),
        loc,
        i,
    ) == if args[i].py {
        Ok::<RVal, CallErrV>(RVal::Ctx)
    } else {
        Ok::<RVal, CallErrV>(RVal::Val(spec_convert(vals[i - base], args[i].ty)->0))
    } by {
        lemma_pos_slot_skips_context(args, i);
        if !args[i].py {
            assert(i >= base);
            assert(kw_lookup(Seq::<(Seq<char>, PyVal)>::empty(), args[i].name@) is None);
            assert(pos_slot(args, i) == i - base);
            assert(kw_lookup(kw, args[i].name@) == Some(vals[i - base]));
        }
    }
}

/// For a function whose trailing parameter is optional, with a registered
/// default that converts to its own declared type, a call that omits the
/// trailing parameter resolves every descriptor exactly as the call that
/// passes the default explicitly: the wrapped function observes no
/// difference between the two.
pub proof fn lemma_omitted_default_matches_explicit(
    args: Seq<FnArg>,
    hints: Seq<ArgHint>,
    vals: Seq<PyVal>,
    loc: Seq<char>,
)
    requires
        descriptors_wf(args),
        args.len() > ctx_base(args),
        spec_effective_optional(args.last(), hints),
        vals.len() == args.len() - 1 - ctx_base(args),
        spec_convert(spec_default_for(args.last(), hints), args.last().ty) == Some(
            spec_default_for(args.last(), hints),
        ),
    ensures
        forall|i: int|
            0 <= i < args.len() ==> (#[trigger] spec_resolve_one(
                args,
                hints,
                vals,
                Seq::empty(),
                loc,
                i,
            )) == spec_resolve_one(
                args,
                hints,
                vals.push(spec_default_for(args.last(), hints)),
                Seq::empty(),
                loc,
                i,
            ),
{
    let base = ctx_base(args);
    let d = spec_default_for(args.last(), hints);
    let full = vals.push(d);
    assert forall|i: int| 0 <= i < args.len() implies (#[trigger] spec_resolve_one(
        args,
        hints,
        vals,
        Seq::empty(),
        loc,
        i,
    )) == spec_resolve_one(args, hints, full, Seq::empty(), loc, i) by {
        lemma_pos_slot_skips_context(args, i);
        if !args[i].py {
            assert(kw_lookup(Seq::<(Seq<char>, PyVal)>::empty(), args[i].name@) is None);
            let j = pos_slot(args, i);
            if i < args.len() - 1 {
                assert(j < vals.len());
                assert(full[j] == vals[j]);
            } else {
                assert(args[i] == args.last());
                assert(j == vals.len());
                assert(full[j] == d);
            }
        }
    }
}

/// The positional slots of two descriptor lists agree wherever their
/// context-handle flags agree.
pub proof fn lemma_pos_slot_congruence(args1: Seq<FnArg>, args2: Seq<FnArg>, i: int)
    requires
        args1.len() == args2.len(),
        forall|k: int| 0 <= k < args1.len() ==> (#[trigger] args1[k]).py == args2[k].py,
        0 <= i <= args1.len(),
    ensures
        pos_slot(args1, i) == pos_slot(args2, i),
    decreases i,
{
    if i > 0 {
        lemma_pos_slot_congruence(args1, args2, i - 1);
    }
}

/// A parameter bound by reference or by mutable reference goes through the
/// same extraction path as one bound by value: the binding mode affects
/// only the emitted native call site, never how a call's arguments resolve.
pub proof fn lemma_binding_mode_does_not_affect_extraction(
    args1: Seq<FnArg>,
    args2: Seq<FnArg>,
    hints: Seq<ArgHint>,
    pos: Seq<PyVal>,
    kw: Seq<(Seq<char>, PyVal)>,
    loc: Seq<char>,
)
    requires
        args1.len() == args2.len(),
        forall|k: int|
            0 <= k < args1.len() ==> {
                let a1 = #[trigger] args1[k];
                let a2 = args2[k];
                a1.name == a2.name && a1.ty == a2.ty && a1.optional == a2.optional && a1.py
                    == a2.py
            },
    ensures
        forall|i: int|
            0 <= i < args1.len() ==> (#[trigger] spec_resolve_one(args1, hints, pos, kw, loc, i))
                == spec_resolve_one(args2, hints, pos, kw, loc, i),
{
    assert forall|i: int| 0 <= i < args1.len() implies (#[trigger] spec_resolve_one(
        args1,
        hints,
        pos,
        kw,
        loc,
        i,
    )) == spec_resolve_one(args2, hints, pos, kw, loc, i) by {
        lemma_pos_slot_congruence(args1, args2, i);
        assert(args1[i].name == args2[i].name);
    }
}

}
