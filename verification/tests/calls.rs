use pyo3cls::ast::{ArgDecl, BindingMode, NativeTy, PyValue, RetTy, TyRef};
use pyo3cls::marshal::{resolve_arguments, CallError, KwArgs, Resolved};
use pyo3cls::method::{ArgHint, FnArg, FnDesc, FnType};
use pyo3cls::runtime::{
    complete_call, enter_call, run_module_init, InitEnv, InitExit, NativeOutcome, PyErr,
    RuntimeState, WrapExit,
};

fn native_add(a: i64, b: i64) -> i64 {
    a + b
}

fn int_arg(name: &str) -> FnArg {
    FnArg {
        name: name.to_string(),
        mode: BindingMode::ByValue,
        ty: TyRef::Plain(NativeTy::Int),
        optional: false,
        py: false,
    }
}

fn add_desc() -> FnDesc {
    FnDesc {
        tp: FnType::Fn,
        attrs: vec![ArgHint { name: "b".to_string(), default: Some(PyValue::Int(1)) }],
        args: vec![int_arg("a"), int_arg("b")],
        output: RetTy::Plain(NativeTy::Int),
    }
}

fn two_ints(binds: &[Resolved]) -> (i64, i64) {
    match (&binds[0], &binds[1]) {
        (Resolved::Val(PyValue::Int(a)), Resolved::Val(PyValue::Int(b))) => (*a, *b),
        other => panic!("unexpected bindings: {:?}", other),
    }
}

#[test]
fn positional_call_binds_in_declaration_order() {
    let desc = add_desc();
    let loc = "add()".to_string();
    let kw = KwArgs { entries: vec![] };
    let binds = resolve_arguments(&loc, &desc, &vec![PyValue::Int(3), PyValue::Int(4)], &kw)
        .expect("both arguments supplied");
    assert_eq!(two_ints(&binds), (3, 4));
    assert_eq!(native_add(3, 4), 7);
}

#[test]
fn keyword_call_binds_like_positional_call() {
    let desc = add_desc();
    let loc = "add()".to_string();
    let positional = resolve_arguments(
        &loc,
        &desc,
        &vec![PyValue::Int(3), PyValue::Int(4)],
        &KwArgs { entries: vec![] },
    )
    .unwrap();
    let by_name = resolve_arguments(
        &loc,
        &desc,
        &vec![],
        &KwArgs {
            entries: vec![
                ("a".to_string(), PyValue::Int(3)),
                ("b".to_string(), PyValue::Int(4)),
            ],
        },
    )
    .unwrap();
    assert_eq!(positional, by_name);
}

#[test]
fn omitted_trailing_argument_uses_registered_default() {
    let desc = add_desc();
    let loc = "add()".to_string();
    let kw = KwArgs { entries: vec![] };
    let omitted = resolve_arguments(&loc, &desc, &vec![PyValue::Int(3)], &kw).unwrap();
    let explicit =
        resolve_arguments(&loc, &desc, &vec![PyValue::Int(3), PyValue::Int(1)], &kw).unwrap();
    assert_eq!(omitted, explicit);
    let (a, b) = two_ints(&omitted);
    assert_eq!(native_add(a, b), 4);
}

#[test]
fn example_add_with_args_tuple_and_empty_kwargs() {
    let desc = add_desc();
    let mut st = RuntimeState::fresh();
    let loc = "add()".to_string();
    let binds = enter_call(&loc, &desc, &vec![PyValue::Int(3)], None, &mut st)
        .expect("default fills the omitted argument");
    assert_eq!(two_ints(&binds), (3, 1));
    assert_eq!(native_add(3, 1), 4);
}

#[test]
fn example_add_with_kwargs_only() {
    let desc = add_desc();
    let mut st = RuntimeState::fresh();
    let loc = "add()".to_string();
    let kw = KwArgs {
        entries: vec![
            ("a".to_string(), PyValue::Int(5)),
            ("b".to_string(), PyValue::Int(2)),
        ],
    };
    let binds = enter_call(&loc, &desc, &vec![], Some(&kw), &mut st).unwrap();
    assert_eq!(two_ints(&binds), (5, 2));
    assert_eq!(native_add(5, 2), 7);
}

#[test]
fn example_add_without_arguments_fails_naming_the_first() {
    let desc = add_desc();
    let mut st = RuntimeState::fresh();
    let loc = "add()".to_string();
    let r = enter_call(&loc, &desc, &vec![], None, &mut st);
    assert!(r.is_none());
    let err = st.pending.expect("the exception slot is set");
    assert_eq!(err.message, "add(): missing required argument 'a'");
}

#[test]
fn conversion_failure_names_argument_and_location() {
    let desc = add_desc();
    let loc = "add()".to_string();
    let kw = KwArgs { entries: vec![] };
    let r = resolve_arguments(
        &loc,
        &desc,
        &vec![PyValue::Str("three".to_string())],
        &kw,
    );
    match r {
        Err(CallError::Conversion { arg, location }) => {
            assert_eq!(arg, "a");
            assert_eq!(location, "add()");
        }
        other => panic!("expected a conversion error, got {:?}", other),
    }
}

#[test]
fn context_handle_consumes_no_positional_slot() {
    let desc = FnDesc {
        tp: FnType::Fn,
        attrs: vec![],
        args: vec![
            FnArg {
                name: "py".to_string(),
                mode: BindingMode::ByValue,
                ty: TyRef::Context,
                optional: false,
                py: true,
            },
            int_arg("x"),
        ],
        output: RetTy::Plain(NativeTy::Int),
    };
    let loc = "ctxfn()".to_string();
    let binds = resolve_arguments(
        &loc,
        &desc,
        &vec![PyValue::Int(9)],
        &KwArgs { entries: vec![] },
    )
    .unwrap();
    assert_eq!(binds[0], Resolved::Ctx);
    assert_eq!(binds[1], Resolved::Val(PyValue::Int(9)));
}

#[test]
fn optional_typed_argument_defaults_to_null() {
    let desc = FnDesc {
        tp: FnType::Fn,
        attrs: vec![],
        args: vec![FnArg {
            name: "x".to_string(),
            mode: BindingMode::ByValue,
            ty: TyRef::Optional(NativeTy::Int),
            optional: true,
            py: false,
        }],
        output: RetTy::Unit,
    };
    let loc = "maybe()".to_string();
    let binds =
        resolve_arguments(&loc, &desc, &vec![], &KwArgs { entries: vec![] }).unwrap();
    assert_eq!(binds[0], Resolved::Val(PyValue::Null));
}

#[test]
fn error_result_sets_exception_and_returns_sentinel() {
    let mut st = RuntimeState::fresh();
    let exit = complete_call(
        NativeOutcome::Failed(PyErr { message: "boom".to_string() }),
        &mut st,
    );
    assert_eq!(exit, WrapExit::Sentinel);
    let err = st.pending.expect("the exception slot is set on failure");
    assert_eq!(err.message, "boom");
}

#[test]
fn successful_result_converts_with_no_exception() {
    let mut st = RuntimeState::fresh();
    let exit = complete_call(NativeOutcome::Done(PyValue::Int(4)), &mut st);
    assert_eq!(exit, WrapExit::Obj(PyValue::Int(4)));
    assert!(st.pending.is_none());
}

#[test]
fn panic_in_native_body_aborts_at_the_boundary() {
    let mut st = RuntimeState::fresh();
    let exit = complete_call(NativeOutcome::Panicked, &mut st);
    assert_eq!(exit, WrapExit::Aborted);
}

fn all_ok_env() -> InitEnv {
    InitEnv { create_ok: true, cast_ok: true, doc_ok: true, setup: Ok(()) }
}

#[test]
fn module_init_success_returns_module() {
    let mut st = RuntimeState::fresh();
    let (exit, trace) = run_module_init(&all_ok_env(), &mut st);
    assert_eq!(exit, InitExit::Module);
    assert!(trace.fresh_boot && trace.created && trace.doc_attached && trace.setup_ran);
    assert!(st.initialized && st.threads_ready);
    assert!(st.pending.is_none());
}

#[test]
fn module_init_twice_boots_runtime_once() {
    let mut st = RuntimeState::fresh();
    let (_, first) = run_module_init(&all_ok_env(), &mut st);
    assert!(first.fresh_boot);
    let (exit, second) = run_module_init(&all_ok_env(), &mut st);
    assert!(!second.fresh_boot);
    assert!(second.created);
    assert_eq!(exit, InitExit::Module);
    assert!(st.initialized && st.threads_ready);
}

#[test]
fn null_module_creation_skips_setup_and_doc() {
    let mut st = RuntimeState::fresh();
    let env = InitEnv { create_ok: false, cast_ok: true, doc_ok: true, setup: Ok(()) };
    let (exit, trace) = run_module_init(&env, &mut st);
    assert_eq!(exit, InitExit::Sentinel);
    assert!(!trace.setup_ran);
    assert!(!trace.doc_attached);
    assert!(st.pending.is_some());
}

#[test]
fn wrap_failure_restores_error_and_returns_sentinel() {
    let mut st = RuntimeState::fresh();
    let env = InitEnv { create_ok: true, cast_ok: false, doc_ok: true, setup: Ok(()) };
    let (exit, trace) = run_module_init(&env, &mut st);
    assert_eq!(exit, InitExit::Sentinel);
    assert!(!trace.setup_ran);
    assert!(st.pending.is_some());
}

#[test]
fn doc_attachment_failure_aborts() {
    let mut st = RuntimeState::fresh();
    let env = InitEnv { create_ok: true, cast_ok: true, doc_ok: false, setup: Ok(()) };
    let (exit, trace) = run_module_init(&env, &mut st);
    assert_eq!(exit, InitExit::Aborted);
    assert!(!trace.setup_ran);
}

#[test]
fn setup_error_is_restored_into_exception_slot() {
    let mut st = RuntimeState::fresh();
    let env = InitEnv {
        create_ok: true,
        cast_ok: true,
        doc_ok: true,
        setup: Err(PyErr { message: "setup failed".to_string() }),
    };
    let (exit, trace) = run_module_init(&env, &mut st);
    assert_eq!(exit, InitExit::Sentinel);
    assert!(trace.setup_ran);
    assert_eq!(st.pending.expect("exception set").message, "setup failed");
}

#[test]
fn resolved_kwarg_wins_over_positional_slot() {
    let desc = add_desc();
    let loc = "add()".to_string();
    let kw = KwArgs { entries: vec![("a".to_string(), PyValue::Int(10))] };
    let binds =
        resolve_arguments(&loc, &desc, &vec![PyValue::Int(1), PyValue::Int(2)], &kw).unwrap();
    assert_eq!(two_ints(&binds), (10, 2));
}

#[test]
fn arg_decl_helpers_keep_declaration() {
    let d = ArgDecl {
        name: "x".to_string(),
        mode: BindingMode::ByMutRef,
        ty: TyRef::Plain(NativeTy::Str),
    };
    let a = pyo3cls::method::arg_from_decl(&d);
    assert_eq!(a.name, "x");
    assert_eq!(a.mode, BindingMode::ByMutRef);
    assert!(!a.optional && !a.py);
}

#[test]
fn fallible_wrapped_call_reports_error_through_boundary() {
    let desc = add_desc();
    let mut st = RuntimeState::fresh();
    let loc = "sub()".to_string();
    let binds = enter_call(
        &loc,
        &desc,
        &vec![PyValue::Int(1), PyValue::Int(2)],
        None,
        &mut st,
    )
    .unwrap();
    let (a, b) = two_ints(&binds);
    let native: Result<i64, PyErr> = if a > b {
        Ok(a - b)
    } else {
        Err(PyErr { message: "a must exceed b".to_string() })
    };
    let outcome = match native {
        Ok(v) => NativeOutcome::Done(PyValue::Int(v)),
        Err(e) => NativeOutcome::Failed(e),
    };
    let exit = complete_call(outcome, &mut st);
    assert_eq!(exit, WrapExit::Sentinel);
    assert_eq!(st.pending.expect("exception set").message, "a must exceed b");
}
