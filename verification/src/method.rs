//! The argument-descriptor model of a wrapped function.
//!
//! A [`FnDesc`] is built once per annotated function, from its declared
//! inputs and the override hints of its wrapper directive, and is consumed by
//! the wrapper synthesizer and the marshaler.

use vstd::prelude::*;

use crate::ast::{ArgDecl, BindingMode, NativeTy, PyValue, RetTy, TyRef};

verus! {

/// The kind of callable a wrapper is generated for.  Module-level wrapping
/// only ever produces free functions; the other kinds exist for wrappers
/// registered on a class.
#[derive(Clone, Copy, Debug, PartialEq, Eq)]
pub enum FnType {
    Fn,
    Method,
    Static,
    Class,
}

/// One argument descriptor.
///
/// `py` marks the implicit execution-context handle: such a parameter binds
/// to the ambient context of the calling convention and never takes part in
/// runtime-side extraction.  `optional` marks a parameter whose absence is
/// representable in its declared type.
#[derive(Debug, PartialEq, Eq)]
pub struct FnArg {
    pub name: String,
    pub mode: BindingMode,
    pub ty: TyRef,
    pub optional: bool,
    pub py: bool,
}

/// An override hint taken from the trailing entries of a wrapper directive:
/// it names an argument, makes it optional, and may register a default.
#[derive(Debug, PartialEq, Eq)]
pub struct ArgHint {
    pub name: String,
    pub default: Option<PyValue>,
}

/// The full descriptor record of one wrapped function.
#[derive(Debug, PartialEq, Eq)]
pub struct FnDesc {
    pub tp: FnType,
    pub attrs: Vec<ArgHint>,
    pub args: Vec<FnArg>,
    pub output: RetTy,
}

/// The inner native type of an optional declared type, if any.
pub open spec fn spec_optional_inner(ty: TyRef) -> Option<NativeTy> {
    match ty {
        TyRef::Optional(nt) => Some(nt),
        _ => None,
    }
}

/// Whether a declared type is optional, i.e. its absence is representable.
pub fn check_arg_ty_and_optional(ty: TyRef) -> (r: Option<NativeTy>)
    ensures
        r == spec_optional_inner(ty),
{
    match ty {
        TyRef::Optional(nt) => Some(nt),
        _ => None,
    }
}

/// The descriptor derived from one declared parameter.
pub open spec fn spec_arg_of(d: ArgDecl) -> FnArg {
    FnArg {
        name: d.name,
        mode: d.mode,
        ty: d.ty,
        optional: d.ty is Optional,
        py: d.ty is Context,
    }
}

/// Builds the descriptor of one declared parameter: the context handle is
/// recognized by its declared type, optionality by the optional type shape.
pub fn arg_from_decl(d: &ArgDecl) -> (r: FnArg)
    ensures
        r == spec_arg_of(*d),
{
    let py = match d.ty {
        TyRef::Context => true,
        _ => false,
    };
    let optional = match check_arg_ty_and_optional(d.ty) {
        Some(_) => true,
        None => false,
    };
    FnArg { name: d.name.clone(), mode: d.mode, ty: d.ty, optional, py }
}

/// At most the first descriptor may be the execution-context handle.
pub open spec fn descriptors_wf(args: Seq<FnArg>) -> bool {
    forall|i: int| 1 <= i < args.len() ==> !(#[trigger] args[i]).py
}

/// Builds the descriptor list of a declared input list.
pub fn args_from_decls(inputs: &Vec<ArgDecl>) -> (r: Vec<FnArg>)
    ensures
        r@.len() == inputs@.len(),
        forall|i: int| 0 <= i < r@.len() ==> r@[i] == spec_arg_of(#[trigger] inputs@[i]),
{
    let mut out: Vec<FnArg> = Vec::new();
    let mut i: usize = 0;
    while i < inputs.len()
        invariant
            i <= inputs@.len(),
            out@.len() == i,
            forall|k: int| 0 <= k < i as int ==> out@[k] == spec_arg_of(#[trigger] inputs@[k]),
        decreases inputs@.len() - i,
    {
        out.push(arg_from_decl(&inputs[i]));
        i += 1;
    }
    out
}

}
