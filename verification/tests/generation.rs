use pyo3cls::ast::{ArgDecl, Attribute, BindingMode, FnItem, Lit, MetaItem, NativeTy, NestedMeta, RetTy, TyRef};
use pyo3cls::module::{
    build_py2_module_init, build_py3_module_init, py2_init, py3_init, wrap_fn, CallArg, SetupFn,
    Stmt,
};
use pyo3cls::runtime::Abi;
use pyo3cls::utils::{get_doc, trim_str};

fn pyfn_directive(module: &str, exported: &str, extra: Vec<NestedMeta>) -> Attribute {
    let mut metas = vec![
        NestedMeta::Word(module.to_string()),
        NestedMeta::Lit(Lit::Str(exported.to_string())),
    ];
    metas.extend(extra);
    Attribute { value: MetaItem::List("pyfn".to_string(), metas) }
}

fn doc_attr(text: &str) -> Attribute {
    Attribute {
        value: MetaItem::NameValue("doc".to_string(), Lit::Str(text.to_string())),
    }
}

fn add_item(attrs: Vec<Attribute>) -> FnItem {
    FnItem {
        name: "add".to_string(),
        attrs,
        inputs: vec![
            ArgDecl {
                name: "a".to_string(),
                mode: BindingMode::ByValue,
                ty: TyRef::Plain(NativeTy::Int),
            },
            ArgDecl {
                name: "b".to_string(),
                mode: BindingMode::ByValue,
                ty: TyRef::Plain(NativeTy::Int),
            },
        ],
        output: RetTy::Plain(NativeTy::Int),
    }
}

#[test]
fn directive_is_extracted_and_stripped() {
    let mut item = add_item(vec![doc_attr("adds two numbers"), pyfn_directive("moduleX", "add", vec![])]);
    let (reg, notes) = wrap_fn(&mut item);
    let reg = reg.expect("a well-shaped directive wraps the function");
    assert!(notes.is_empty());
    assert_eq!(item.attrs, vec![doc_attr("adds two numbers")]);
    assert_eq!(reg.module_ident, "moduleX");
    assert_eq!(reg.def.ml_name, "add");
    assert!(reg.def.accepts_varargs && reg.def.accepts_keywords);
    assert_eq!(reg.def.doc, "adds two numbers");
    assert_eq!(reg.wrapper.location, "add()");
}

#[test]
fn wrapper_call_args_follow_declaration_order() {
    let mut item = add_item(vec![pyfn_directive("m", "add", vec![])]);
    let (reg, _) = wrap_fn(&mut item);
    let w = reg.unwrap().wrapper;
    assert_eq!(
        w.call_args,
        vec![CallArg::Named("a".to_string()), CallArg::Named("b".to_string())]
    );
    assert_eq!(w.fn_desc.args.len(), 2);
    assert_eq!(w.fn_desc.output, RetTy::Plain(NativeTy::Int));
}

#[test]
fn directive_defaults_become_override_hints() {
    let mut item = add_item(vec![pyfn_directive(
        "m",
        "add",
        vec![NestedMeta::Assign("b".to_string(), Lit::Int(1))],
    )]);
    let (reg, _) = wrap_fn(&mut item);
    let desc = reg.unwrap().wrapper.fn_desc;
    assert_eq!(desc.attrs.len(), 1);
    assert_eq!(desc.attrs[0].name, "b");
    assert_eq!(desc.attrs[0].default, Some(pyo3cls::ast::PyValue::Int(1)));
}

#[test]
fn malformed_directive_reports_and_leaves_function_unwrapped() {
    let short = Attribute {
        value: MetaItem::List(
            "pyfn".to_string(),
            vec![NestedMeta::Word("m".to_string())],
        ),
    };
    let mut item = add_item(vec![short]);
    let (reg, notes) = wrap_fn(&mut item);
    assert!(reg.is_none());
    assert_eq!(notes.len(), 1);
    assert_eq!(notes[0].fn_name, "add");
    assert!(item.attrs.is_empty(), "the malformed directive is still stripped");
}

#[test]
fn unrelated_attributes_pass_through_unwrapped() {
    let mut item = add_item(vec![doc_attr("plain function")]);
    let (reg, notes) = wrap_fn(&mut item);
    assert!(reg.is_none());
    assert!(notes.is_empty());
    assert_eq!(item.attrs, vec![doc_attr("plain function")]);
}

fn setup_fn() -> SetupFn {
    SetupFn {
        name: "init_mymod".to_string(),
        attrs: vec![doc_attr("my module")],
        stmts: vec![
            Stmt::Other(0),
            Stmt::Item(add_item(vec![pyfn_directive("m", "add", vec![])])),
        ],
    }
}

#[test]
fn modern_builder_emits_pyinit_symbol_and_splices_registration() {
    let mut ast = setup_fn();
    let (init, notes) = build_py3_module_init(&mut ast, &"\"mymod\"".to_string());
    assert!(notes.is_empty());
    assert_eq!(init.abi, Abi::Modern);
    assert_eq!(init.symbol, "PyInit_mymod");
    assert_eq!(init.module_name, "mymod");
    assert_eq!(init.setup_fn, "init_mymod");
    assert_eq!(init.doc, "my module");
    assert_eq!(ast.stmts.len(), 3);
    assert_eq!(ast.stmts[0], Stmt::Other(0));
    match (&ast.stmts[1], &ast.stmts[2]) {
        (Stmt::Item(f), Stmt::Register(reg)) => {
            assert!(f.attrs.is_empty());
            assert_eq!(f.name, "add");
            assert_eq!(reg.def.ml_name, "add");
            assert_eq!(reg.module_ident, "m");
        }
        other => panic!("unexpected rewritten body: {:?}", other),
    }
}

#[test]
fn legacy_builder_emits_init_symbol() {
    let mut ast = setup_fn();
    let (init, _) = build_py2_module_init(&mut ast, &"\"mymod\"".to_string());
    assert_eq!(init.abi, Abi::Legacy);
    assert_eq!(init.symbol, "initmymod");
    assert_eq!(init.module_name, "mymod");
    assert_eq!(init.setup_fn, "init_mymod");
}

#[test]
fn module_name_is_trimmed() {
    let init = py3_init(
        &"setup".to_string(),
        &" mymod ".to_string(),
        &"".to_string(),
    );
    assert_eq!(init.symbol, "PyInit_mymod");
    assert_eq!(init.module_name, "mymod");
    let legacy = py2_init(
        &"setup".to_string(),
        &"\tmymod\n".to_string(),
        &"".to_string(),
    );
    assert_eq!(legacy.symbol, "initmymod");
}

#[test]
fn trim_handles_empty_and_inner_whitespace() {
    assert_eq!(trim_str("   "), "");
    assert_eq!(trim_str(""), "");
    assert_eq!(trim_str(" a b "), "a b");
    assert_eq!(trim_str("ab"), "ab");
}

#[test]
fn doc_lines_join_with_line_breaks() {
    let attrs = vec![doc_attr("first line"), doc_attr("second line")];
    assert_eq!(get_doc(&attrs), "first line\nsecond line");
    assert_eq!(get_doc(&vec![]), "");
}

#[test]
fn later_directive_overrides_earlier() {
    let mut item = add_item(vec![
        pyfn_directive("m1", "first", vec![]),
        pyfn_directive("m2", "second", vec![]),
    ]);
    let (reg, _) = wrap_fn(&mut item);
    let reg = reg.unwrap();
    assert_eq!(reg.module_ident, "m2");
    assert_eq!(reg.def.ml_name, "second");
}
