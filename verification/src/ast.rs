//! The declaration and value model that the generator works on.
//!
//! Declarations reach the generator as plain records: an attribute list of
//! structured metadata, an argument list with declared types, and a return
//! type.  Values that cross the boundary to the embedding runtime are held in
//! [`PyValue`], whose spec-level shape is [`PyVal`].

use vstd::prelude::*;

verus! {

/// The runtime's boxed object representation, restricted to the value shapes
/// that wrapped functions exchange with the embedding runtime.
#[derive(Debug, PartialEq, Eq)]
pub enum PyValue {
    Int(i64),
    Bool(bool),
    Str(String),
    Null,
}

/// Spec-level shape of a [`PyValue`].
pub enum PyVal {
    Int(int),
    Bool(bool),
    Str(Seq<char>),
    Null,
}

impl View for PyValue {
    type V = PyVal;

    open spec fn view(&self) -> PyVal {
        match self {
            PyValue::Int(i) => PyVal::Int(*i as int),
            PyValue::Bool(b) => PyVal::Bool(*b),
            PyValue::Str(s) => PyVal::Str(s@),
            PyValue::Null => PyVal::Null,
        }
    }
}

impl DeepView for PyValue {
    type V = PyVal;

    open spec fn deep_view(&self) -> PyVal {
        self.view()
    }
}

impl PyValue {
    /// An owned copy, equal to the original.
    pub fn dup(&self) -> (r: PyValue)
        ensures
            r == *self,
    {
        match self {
            PyValue::Int(i) => PyValue::Int(*i),
            PyValue::Bool(b) => PyValue::Bool(*b),
            PyValue::Str(s) => PyValue::Str(s.clone()),
            PyValue::Null => PyValue::Null,
        }
    }
}

/// A native value type that the marshaler can convert a runtime object into.
#[derive(Clone, Copy, Debug, PartialEq, Eq)]
pub enum NativeTy {
    Int,
    Bool,
    Str,
}

/// A declared parameter or return type, as the generator reads it.
///
/// `Context` stands for the implicit execution-context handle of the
/// embedding runtime; `Optional` for a type whose absence is representable
/// natively, making the parameter optional.
#[derive(Clone, Copy, Debug, PartialEq, Eq)]
pub enum TyRef {
    Context,
    Plain(NativeTy),
    Optional(NativeTy),
}

/// A declared return type.  `Fallible` is the error-tagged result type: its
/// success payload converts to a runtime object, its error restores into the
/// runtime's active-exception slot.
#[derive(Clone, Copy, Debug, PartialEq, Eq)]
pub enum RetTy {
    Unit,
    Plain(NativeTy),
    Fallible(NativeTy),
}

/// How a parameter binds at the native call site.  Extraction is identical
/// for all three; the mode matters only to the emitted call.
#[derive(Clone, Copy, Debug, PartialEq, Eq)]
pub enum BindingMode {
    ByValue,
    ByRef,
    ByMutRef,
}

/// A literal inside a metadata entry.
#[derive(Debug, PartialEq, Eq)]
pub enum Lit {
    Str(String),
    Int(i64),
    Bool(bool),
}

/// A nested entry of a list-shaped metadata item.
#[derive(Debug, PartialEq, Eq)]
pub enum NestedMeta {
    /// A bare identifier, e.g. a module identifier or an argument name.
    Word(String),
    /// `name = literal`, e.g. a registered default for an argument.
    Assign(String, Lit),
    /// A bare literal, e.g. an exported-name string.
    Lit(Lit),
}

/// A structured metadata item attached to a declaration.
#[derive(Debug, PartialEq, Eq)]
pub enum MetaItem {
    Word(String),
    List(String, Vec<NestedMeta>),
    NameValue(String, Lit),
}

/// One attribute of a declaration.
#[derive(Debug, PartialEq, Eq)]
pub struct Attribute {
    pub value: MetaItem,
}

/// One declared parameter of an annotated function.
#[derive(Debug, PartialEq, Eq)]
pub struct ArgDecl {
    pub name: String,
    pub mode: BindingMode,
    pub ty: TyRef,
}

/// An annotated function declaration, as the generator receives it.
#[derive(Debug, PartialEq, Eq)]
pub struct FnItem {
    pub name: String,
    pub attrs: Vec<Attribute>,
    pub inputs: Vec<ArgDecl>,
    pub output: RetTy,
}

}
