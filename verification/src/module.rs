//! Generation of the module initializer and the function wrappers.
//!
//! A module-setup declaration carries, in its body, function declarations
//! annotated with a wrapper directive of the shape
//! `pyfn(moduleIdent, "exportedName", overrideHint*)`.  The builder scans
//! each such declaration, strips the directive from its attribute list,
//! derives its descriptor record, and splices a registration — the wrapper
//! record and its method-table entry — next to the stripped declaration.  It
//! then produces the record of the exported module initializer, under the
//! symbol-naming convention of the requested protocol generation.

use vstd::prelude::*;
use vstd::string::StringExecFns;

use crate::args::{parse_arguments, spec_parse_arguments};
use crate::ast::{ArgDecl, Attribute, FnItem, Lit, MetaItem, NestedMeta, RetTy};
use crate::method::{args_from_decls, spec_arg_of, ArgHint, FnDesc, FnType};
use crate::runtime::Abi;
use crate::utils::{doc_view, get_doc, trim_str, trim_view};

verus! {

/// The record of one generated module initializer: the exported symbol, the
/// module name it registers, the user's setup function, the module's
/// documentation string, and the protocol generation it follows.
#[derive(Debug, PartialEq, Eq)]
pub struct GeneratedModuleInit {
    pub abi: Abi,
    pub symbol: String,
    pub module_name: String,
    pub setup_fn: String,
    pub doc: String,
}

/// One argument position of the native call emitted inside a wrapper: the
/// ambient execution context, or a marshaled binding by name.
#[derive(Debug, PartialEq, Eq)]
pub enum CallArg {
    Ctx,
    Named(String),
}

/// The record of one generated fixed-signature entry point.
#[derive(Debug, PartialEq, Eq)]
pub struct GeneratedWrapper {
    /// The diagnostic location used by every error path of the call.
    pub location: String,
    /// The argument list of the emitted native call, in declaration order.
    pub call_args: Vec<CallArg>,
    /// The descriptor record the wrapper marshals by.
    pub fn_desc: FnDesc,
}

/// The method-table entry of one wrapped function.
#[derive(Debug, PartialEq, Eq)]
pub struct MethodDef {
    pub ml_name: String,
    pub doc: String,
    pub accepts_varargs: bool,
    pub accepts_keywords: bool,
}

/// The registration of one wrapped function into its target module.
#[derive(Debug, PartialEq, Eq)]
pub struct Registration {
    pub module_ident: String,
    pub def: MethodDef,
    pub wrapper: GeneratedWrapper,
}

/// A reported diagnostic: a wrapper directive on the named function lacked
/// its required entries and was dropped, leaving the function unwrapped.
#[derive(Debug, PartialEq, Eq)]
pub struct Note {
    pub fn_name: String,
}

/// One statement of a module-setup body: a nested function declaration, a
/// generated registration, or any other statement, carried through opaquely.
#[derive(Debug, PartialEq, Eq)]
pub enum Stmt {
    Item(FnItem),
    Register(Registration),
    Other(u64),
}

/// A module-setup declaration: its name, attributes, and body statements.
#[derive(Debug, PartialEq, Eq)]
pub struct SetupFn {
    pub name: String,
    pub attrs: Vec<Attribute>,
    pub stmts: Vec<Stmt>,
}

/// Whether an attribute is a wrapper directive.
pub open spec fn is_pyfn_list(a: Attribute) -> bool {
    a.value matches MetaItem::List(n, _) && n@ == "pyfn"@
}

/// What one scan over an attribute list accumulates.
pub struct ScanRes {
    pub modname: Option<String>,
    pub fnname: Option<String>,
    pub hints: Seq<ArgHint>,
    pub malformed: int,
}

/// The module identifier an entry contributes, if it is a bare word.
pub open spec fn word_of(m: NestedMeta) -> Option<String> {
    match m {
        NestedMeta::Word(w) => Some(w),
        _ => None,
    }
}

/// The exported name an entry contributes, if it is a string literal.
pub open spec fn str_of(m: NestedMeta) -> Option<String> {
    match m {
        NestedMeta::Lit(Lit::Str(s)) => Some(s),
        _ => None,
    }
}

/// The scan state before any attribute is seen.
pub open spec fn scan_init() -> ScanRes {
    ScanRes { modname: None, fnname: None, hints: Seq::empty(), malformed: 0 }
}

/// How one attribute advances the scan.  A well-shaped directive registers
/// the module identifier and the exported name from its first two entries; a
/// directive with fewer than two entries counts as malformed and clears the
/// module identifier; three or more entries replace the override hints.
pub open spec fn scan_step(st: ScanRes, a: Attribute) -> ScanRes {
    if is_pyfn_list(a) {
        let metas = a.value->List_1@;
        let st1 = if metas.len() >= 2 {
            ScanRes {
                modname: word_of(metas[0]),
                fnname: str_of(metas[1]),
                hints: st.hints,
                malformed: st.malformed,
            }
        } else {
            ScanRes {
                modname: None,
                fnname: st.fnname,
                hints: st.hints,
                malformed: st.malformed + 1,
            }
        };
        if metas.len() >= 3 {
            ScanRes {
                modname: st1.modname,
                fnname: st1.fnname,
                hints: spec_parse_arguments(metas, 2),
                malformed: st1.malformed,
            }
        } else {
            st1
        }
    } else {
        st
    }
}

/// The scan of a whole attribute list, in order; a later directive
/// overrides an earlier one.
pub open spec fn spec_scan(attrs: Seq<Attribute>) -> ScanRes
    decreases attrs.len(),
{
    if attrs.len() == 0 {
        scan_init()
    } else {
        scan_step(spec_scan(attrs.drop_last()), attrs.last())
    }
}

/// The attribute list with every wrapper directive removed, other
/// attributes preserved in order.
pub open spec fn strip_view(attrs: Seq<Attribute>) -> Seq<Attribute>
    decreases attrs.len(),
{
    if attrs.len() == 0 {
        Seq::empty()
    } else {
        let rest = strip_view(attrs.drop_last());
        if is_pyfn_list(attrs.last()) {
            rest
        } else {
            rest.push(attrs.last())
        }
    }
}

/// What the wrapper record generated for a declaration must hold: the
/// diagnostic location derived from the declaration's name, the descriptor
/// of every declared parameter, the directive's override hints, and a call
/// argument per parameter — the ambient context for the context handle, the
/// marshaled binding for every other.
pub open spec fn wrapper_matches(
    name: String,
    hints: Seq<ArgHint>,
    inputs: Seq<ArgDecl>,
    out_ty: RetTy,
    w: GeneratedWrapper,
) -> bool {
    &&& w.location@ == name@ + "()"@
    &&& w.fn_desc.tp is Fn
    &&& w.fn_desc.attrs@ == hints
    &&& w.fn_desc.output == out_ty
    &&& w.fn_desc.args@.len() == inputs.len()
    &&& forall|i: int|
        0 <= i < inputs.len() ==> w.fn_desc.args@[i] == spec_arg_of(#[trigger] inputs[i])
    &&& w.call_args@.len() == inputs.len()
    &&& forall|i: int|
        0 <= i < inputs.len() ==> w.call_args@[i] == (if spec_arg_of(#[trigger] inputs[i]).py {
            CallArg::Ctx
        } else {
            CallArg::Named(inputs[i].name)
        })
}

/// What the registration generated for a declaration must hold: the target
/// module and exported name of its directive, a method-table entry flagged
/// for positional and keyword calls and carrying the declaration's
/// documentation (after the strip), and a matching wrapper record.
pub open spec fn reg_matches(f: FnItem, reg: Registration) -> bool {
    let sc = spec_scan(f.attrs@);
    &&& sc.modname is Some
    &&& sc.fnname is Some
    &&& reg.module_ident == sc.modname->0
    &&& reg.def.ml_name == sc.fnname->0
    &&& reg.def.accepts_varargs
    &&& reg.def.accepts_keywords
    &&& reg.def.doc@ == doc_view(strip_view(f.attrs@))
    &&& wrapper_matches(f.name, sc.hints, f.inputs@, f.output, reg.wrapper)
}

/// Generates the fixed-signature entry-point record of one wrapped
/// function: its diagnostic location, and the native call argument for each
/// descriptor — the ambient context for the context handle, the marshaled
/// binding for every other parameter.
pub fn impl_wrap(name: &String, fn_desc: FnDesc) -> (w: GeneratedWrapper)
    ensures
        w.location@ == name@ + "()"@,
        w.fn_desc == fn_desc,
        w.call_args@.len() == fn_desc.args@.len(),
        forall|i: int|
            0 <= i < fn_desc.args@.len() ==> w.call_args@[i] == (if (#[trigger] fn_desc.args@[i]).py {
                CallArg::Ctx
            } else {
                CallArg::Named(fn_desc.args@[i].name)
            }),
{
    let mut call_args: Vec<CallArg> = Vec::new();
    let mut i: usize = 0;
    while i < fn_desc.args.len()
        invariant
            i <= fn_desc.args@.len(),
            call_args@.len() == i,
            forall|k: int|
                0 <= k < i as int ==> call_args@[k] == (if (#[trigger] fn_desc.args@[k]).py {
                    CallArg::Ctx
                } else {
                    CallArg::Named(fn_desc.args@[k].name)
                }),
        decreases fn_desc.args@.len() - i,
    {
        let a = &fn_desc.args[i];
        if a.py {
            call_args.push(CallArg::Ctx);
        } else {
            call_args.push(CallArg::Named(a.name.clone()));
        }
        i += 1;
    }
    let mut location = name.clone();
    location.append("()");
    GeneratedWrapper { location, call_args, fn_desc }
}

/// Scans a nested declaration for the wrapper directive, strips every
/// directive from its attribute list in place, and, when the last directive
/// is well shaped, generates the declaration's registration.  A directive
/// lacking its two required entries yields a diagnostic note instead, and
/// the declaration stays unwrapped.
pub fn wrap_fn(item: &mut FnItem) -> (r: (Option<Registration>, Vec<Note>))
    ensures
        final(item).name == old(item).name,
        final(item).inputs == old(item).inputs,
        final(item).output == old(item).output,
        final(item).attrs@ == strip_view(old(item).attrs@),
        r.0 is Some <==> spec_scan(old(item).attrs@).modname is Some && spec_scan(
            old(item).attrs@,
        ).fnname is Some,
        r.0 matches Some(reg) ==> reg_matches(*old(item), reg),
        r.1@.len() == spec_scan(old(item).attrs@).malformed,
        forall|k: int| 0 <= k < r.1@.len() ==> (#[trigger] r.1@[k]).fn_name == old(item).name,
{
    let pyfn_key = String::from_str("pyfn");
    let mut pending: Vec<Attribute> = Vec::new();
    core::mem::swap(&mut pending, &mut item.attrs);
    let ghost all_attrs = pending@;
    let mut kept: Vec<Attribute> = Vec::new();
    let mut modname: Option<String> = None;
    let mut fnname: Option<String> = None;
    let mut hints: Vec<ArgHint> = Vec::new();
    let mut notes: Vec<Note> = Vec::new();
    let ghost mut seen: Seq<Attribute> = Seq::empty();
    proof {
        assert(all_attrs =~= seen + pending@);
    }
    while pending.len() > 0
        invariant
            all_attrs == seen + pending@,
            pyfn_key@ == "pyfn"@,
            kept@ == strip_view(seen),
            modname == spec_scan(seen).modname,
            fnname == spec_scan(seen).fnname,
            hints@ == spec_scan(seen).hints,
            notes@.len() == spec_scan(seen).malformed,
            forall|k: int| 0 <= k < notes@.len() ==> (#[trigger] notes@[k]).fn_name == item.name,
            item.name == old(item).name,
            item.inputs == old(item).inputs,
            item.output == old(item).output,
        decreases pending@.len(),
    {
        let a = pending.remove(0);
        let ghost seen0 = seen;
        proof {
            seen = seen.push(a);
            assert(all_attrs =~= seen + pending@);
            assert(seen.drop_last() =~= seen0);
        }
        let mut is_directive = false;
        match &a.value {
            MetaItem::List(nm, metas) => {
                if *nm == pyfn_key {
                    is_directive = true;
                    if metas.len() >= 2 {
                        modname = match &metas[0] {
                            NestedMeta::Word(w) => Some(w.clone()),
                            _ => None,
                        };
                        fnname = match &metas[1] {
                            NestedMeta::Lit(Lit::Str(s)) => Some(s.clone()),
                            _ => None,
                        };
                    } else {
                        notes.push(Note { fn_name: item.name.clone() });
                        modname = None;
                    }
                    if metas.len() >= 3 {
                        hints = parse_arguments(metas, 2);
                    }
                }
            },
            _ => {},
        }
        if !is_directive {
            kept.push(a);
        }
        proof {
            assert(spec_scan(seen) == scan_step(spec_scan(seen0), a));
            assert(strip_view(seen) == if is_pyfn_list(a) {
                strip_view(seen0)
            } else {
                strip_view(seen0).push(a)
            });
        }
    }
    proof {
        assert(seen =~= all_attrs);
    }
    item.attrs = kept;
    let m = match modname {
        Some(m) => m,
        None => {
            return (None, notes);
        },
    };
    let f = match fnname {
        Some(f) => f,
        None => {
            return (None, notes);
        },
    };
    let arg_descs = args_from_decls(&item.inputs);
    let fn_desc = FnDesc { tp: FnType::Fn, attrs: hints, args: arg_descs, output: item.output };
    let wrapper = impl_wrap(&item.name, fn_desc);
    let doc = get_doc(&item.attrs);
    let reg = Registration {
        module_ident: m,
        def: MethodDef { ml_name: f, doc, accepts_varargs: true, accepts_keywords: true },
        wrapper,
    };
    (Some(reg), notes)
}

/// Whether a body statement is a declaration whose directive makes it
/// eligible for wrapping.
pub open spec fn is_wrapped_item(s: Stmt) -> bool {
    s matches Stmt::Item(f) && spec_scan(f.attrs@).modname is Some && spec_scan(
        f.attrs@,
    ).fnname is Some
}

/// The declaration with its directives stripped, everything else equal.
pub open spec fn stripped_item(f: FnItem, g: FnItem) -> bool {
    &&& g.name == f.name
    &&& g.inputs == f.inputs
    &&& g.output == f.output
    &&& g.attrs@ == strip_view(f.attrs@)
}

/// How a rewritten body relates to the original: each eligible declaration
/// is replaced by its stripped self followed by its registration; every
/// other declaration is stripped in place; every other statement is kept.
pub open spec fn rewritten_ok(olds: Seq<Stmt>, news: Seq<Stmt>) -> bool
    decreases olds.len(),
{
    if olds.len() == 0 {
        news.len() == 0
    } else {
        let o = olds.last();
        match o {
            Stmt::Item(f) => {
                if is_wrapped_item(o) {
                    &&& news.len() >= 2
                    &&& (news[news.len() - 2] matches Stmt::Item(g) && stripped_item(f, g))
                    &&& (news.last() matches Stmt::Register(reg) && reg_matches(f, reg))
                    &&& rewritten_ok(olds.drop_last(), news.drop_last().drop_last())
                } else {
                    &&& news.len() >= 1
                    &&& (news.last() matches Stmt::Item(g) && stripped_item(f, g))
                    &&& rewritten_ok(olds.drop_last(), news.drop_last())
                }
            },
            _ => {
                &&& news.len() >= 1
                &&& news.last() == o
                &&& rewritten_ok(olds.drop_last(), news.drop_last())
            },
        }
    }
}

/// How many malformed directives a body carries, over its declarations.
pub open spec fn total_malformed(olds: Seq<Stmt>) -> int
    decreases olds.len(),
{
    if olds.len() == 0 {
        0
    } else {
        total_malformed(olds.drop_last()) + match olds.last() {
            Stmt::Item(f) => spec_scan(f.attrs@).malformed,
            _ => 0,
        }
    }
}

/// Rewrites a module-setup body in place: wraps each eligible nested
/// declaration and splices its registration behind it, strips directives
/// everywhere, and collects one diagnostic note per malformed directive.
pub fn wrap_module_body(ast: &mut SetupFn) -> (notes: Vec<Note>)
    ensures
        final(ast).name == old(ast).name,
        final(ast).attrs == old(ast).attrs,
        rewritten_ok(old(ast).stmts@, final(ast).stmts@),
        notes@.len() == total_malformed(old(ast).stmts@),
{
    let mut pending: Vec<Stmt> = Vec::new();
    core::mem::swap(&mut pending, &mut ast.stmts);
    let ghost olds = pending@;
    let mut news: Vec<Stmt> = Vec::new();
    let mut notes: Vec<Note> = Vec::new();
    let ghost mut seen: Seq<Stmt> = Seq::empty();
    proof {
        assert(olds =~= seen + pending@);
    }
    while pending.len() > 0
        invariant
            olds == seen + pending@,
            rewritten_ok(seen, news@),
            notes@.len() == total_malformed(seen),
            ast.name == old(ast).name,
            ast.attrs == old(ast).attrs,
        decreases pending@.len(),
    {
        let st = pending.remove(0);
        let ghost seen0 = seen;
        proof {
            seen = seen.push(st);
            assert(olds =~= seen + pending@);
            assert(seen.drop_last() =~= seen0);
        }
        match st {
            Stmt::Item(mut f) => {
                let ghost f0 = f;
                let (reg_opt, mut item_notes) = wrap_fn(&mut f);
                let ghost news0 = news@;
                news.push(Stmt::Item(f));
                match reg_opt {
                    Some(reg) => {
                        news.push(Stmt::Register(reg));
                        proof {
                            assert(news@.drop_last().drop_last() =~= news0);
                            assert(is_wrapped_item(Stmt::Item(f0)));
                        }
                    },
                    None => {
                        proof {
                            assert(news@.drop_last() =~= news0);
                            assert(!is_wrapped_item(Stmt::Item(f0)));
                        }
                    },
                }
                notes.append(&mut item_notes);
            },
            other => {
                let ghost news0 = news@;
                news.push(other);
                proof {
                    assert(news@.drop_last() =~= news0);
                }
            },
        }
    }
    proof {
        assert(seen =~= olds);
    }
    ast.stmts = news;
    notes
}

/// Generates the module-initializer record of the modern protocol
/// generation: exported symbol `PyInit_<name>`, returning the module object
/// pointer.
pub fn py3_init(fnname: &String, name: &String, doc: &String) -> (r: GeneratedModuleInit)
    ensures
        r.abi == Abi::Modern,
        r.symbol@ == "PyInit_"@ + trim_view(name@),
        r.module_name@ == trim_view(name@),
        r.setup_fn == *fnname,
        r.doc == *doc,
{
    let trimmed = trim_str(name.as_str());
    let mut symbol = String::from_str("PyInit_");
    symbol.append(trimmed.as_str());
    GeneratedModuleInit {
        abi: Abi::Modern,
        symbol,
        module_name: trimmed,
        setup_fn: fnname.clone(),
        doc: doc.clone(),
    }
}

/// Generates the module-initializer record of the legacy protocol
/// generation: exported symbol `init<name>`, returning nothing.
pub fn py2_init(fnname: &String, name: &String, doc: &String) -> (r: GeneratedModuleInit)
    ensures
        r.abi == Abi::Legacy,
        r.symbol@ == "init"@ + trim_view(name@),
        r.module_name@ == trim_view(name@),
        r.setup_fn == *fnname,
        r.doc == *doc,
{
    let trimmed = trim_str(name.as_str());
    let mut symbol = String::from_str("init");
    symbol.append(trimmed.as_str());
    GeneratedModuleInit {
        abi: Abi::Legacy,
        symbol,
        module_name: trimmed,
        setup_fn: fnname.clone(),
        doc: doc.clone(),
    }
}

/// The module name carried by a module-initialization directive's attribute
/// text: the text without its surrounding delimiter characters.
pub open spec fn attr_module_name(attr: Seq<char>) -> Seq<char> {
    attr.subrange(1, attr.len() - 1)
}

/// Builds a modern-protocol module initializer from an annotated
/// module-setup declaration: rewrites the body, wrapping each eligible
/// nested declaration, and produces the initializer record under the
/// `PyInit_` symbol convention.
pub fn build_py3_module_init(ast: &mut SetupFn, attr: &String) -> (r: (
    GeneratedModuleInit,
    Vec<Note>,
))
    requires
        attr@.len() >= 2,
    ensures
        final(ast).name == old(ast).name,
        final(ast).attrs == old(ast).attrs,
        rewritten_ok(old(ast).stmts@, final(ast).stmts@),
        r.1@.len() == total_malformed(old(ast).stmts@),
        r.0.abi == Abi::Modern,
        r.0.symbol@ == "PyInit_"@ + trim_view(attr_module_name(attr@)),
        r.0.module_name@ == trim_view(attr_module_name(attr@)),
        r.0.setup_fn == old(ast).name,
        r.0.doc@ == doc_view(old(ast).attrs@),
{
    let n_attr = attr.as_str().unicode_len();
    let modname = attr.as_str().substring_char(1, n_attr - 1).to_owned();
    let notes = wrap_module_body(ast);
    let doc = get_doc(&ast.attrs);
    let init = py3_init(&ast.name, &modname, &doc);
    (init, notes)
}

/// Builds a legacy-protocol module initializer from an annotated
/// module-setup declaration: rewrites the body exactly as the modern
/// builder, and produces the initializer record under the `init` symbol
/// convention.
pub fn build_py2_module_init(ast: &mut SetupFn, attr: &String) -> (r: (
    GeneratedModuleInit,
    Vec<Note>,
))
    requires
        attr@.len() >= 2,
    ensures
        final(ast).name == old(ast).name,
        final(ast).attrs == old(ast).attrs,
        rewritten_ok(old(ast).stmts@, final(ast).stmts@),
        r.1@.len() == total_malformed(old(ast).stmts@),
        r.0.abi == Abi::Legacy,
        r.0.symbol@ == "init"@ + trim_view(attr_module_name(attr@)),
        r.0.module_name@ == trim_view(attr_module_name(attr@)),
        r.0.setup_fn == old(ast).name,
        r.0.doc@ == doc_view(old(ast).attrs@),
{
    let n_attr = attr.as_str().unicode_len();
    let modname = attr.as_str().substring_char(1, n_attr - 1).to_owned();
    let notes = wrap_module_body(ast);
    let doc = get_doc(&ast.attrs);
    let init = py2_init(&ast.name, &modname, &doc);
    (init, notes)
}

}
