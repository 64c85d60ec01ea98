//! The runtime-facing behaviour of the generated shims.
//!
//! A generated entry point runs inside the runtime's callback-safety
//! boundary: every native failure is translated into the runtime's
//! active-exception slot before control returns to the host, and a failure
//! return is always paired with a set exception.  A generated module
//! initializer runs the shared initialization state machine: boot the
//! runtime idempotently, create the module object, wrap it, attach its
//! documentation, run the user's setup function, and report the outcome to
//! the host loader.

use vstd::prelude::*;
use vstd::string::StringExecFns;

use crate::ast::PyValue;
use crate::marshal::{
    error_message, first_resolve_error, resolve_ok_upto, spec_resolve_one, CallError, KwArgs,
    Resolved,
};
use crate::method::FnDesc;

verus! {

/// The two module-registration protocols of the embedding runtime's two
/// major generations.
#[derive(Clone, Copy, Debug, PartialEq, Eq)]
pub enum Abi {
    Legacy,
    Modern,
}

/// The runtime's exception object, as the shims handle it: an error carried
/// into or out of the active-exception slot.
#[derive(Debug, PartialEq, Eq)]
pub struct PyErr {
    pub message: String,
}

impl PyErr {
    /// An owned copy, equal to the original.
    pub fn dup(&self) -> (r: PyErr)
        ensures
            r == *self,
    {
        PyErr { message: self.message.clone() }
    }
}

/// The global state of the embedded runtime, as the shims observe it: the
/// boot flags of the interpreter and its threading subsystem, and the
/// active-exception slot.
#[derive(Debug)]
pub struct RuntimeState {
    pub initialized: bool,
    pub threads_ready: bool,
    pub pending: Option<PyErr>,
}

impl RuntimeState {
    /// The state of a process that has not loaded the runtime yet.
    pub fn fresh() -> (r: RuntimeState)
        ensures
            !r.initialized,
            !r.threads_ready,
            r.pending is None,
    {
        RuntimeState { initialized: false, threads_ready: false, pending: None }
    }
}

/// What the wrapped function's native body did.
#[derive(Debug)]
pub enum NativeOutcome {
    /// It returned a value (the payload, for an error-tagged return type).
    Done(PyValue),
    /// Its error-tagged result carried an error.
    Failed(PyErr),
    /// It panicked; the unwind reached the callback-safety boundary.
    Panicked,
}

/// How a generated entry point leaves the callback-safety boundary.
#[derive(Debug, PartialEq, Eq)]
pub enum WrapExit {
    /// A converted result object is handed to the host.
    Obj(PyValue),
    /// The failure sentinel (a null object pointer) is handed to the host,
    /// with the active exception set.
    Sentinel,
    /// The process aborts: the failure could not be translated.
    Aborted,
}

/// The keyword table of a call whose keyword pointer may be null.
pub open spec fn opt_kw_view(kwargs: Option<&KwArgs>) -> Seq<(Seq<char>, crate::ast::PyVal)> {
    match kwargs {
        Some(k) => k@,
        None => Seq::empty(),
    }
}

/// Enters the callback-safety boundary of a generated entry point: acquires
/// the call's positional tuple and (possibly null) keyword table and runs
/// argument resolution.
///
/// On failure the resolution error of the first failing descriptor is
/// raised: it is written into the active-exception slot, and no bindings are
/// produced — the caller must then return the failure sentinel, so the host
/// never observes a bare failure with no exception set.
pub fn enter_call(
    location: &String,
    desc: &FnDesc,
    pos: &Vec<PyValue>,
    kwargs: Option<&KwArgs>,
    st: &mut RuntimeState,
) -> (r: Option<Vec<Resolved>>)
    requires
        old(st).pending is None,
    ensures
        final(st).initialized == old(st).initialized,
        final(st).threads_ready == old(st).threads_ready,
        r is Some <==> resolve_ok_upto(
            desc.args@,
            desc.attrs@,
            pos.deep_view(),
            opt_kw_view(kwargs),
            location@,
            desc.args@.len() as int,
        ),
        r matches Some(out) ==> final(st).pending is None && out@.len() == desc.args@.len(),
        r matches Some(out) ==> forall|i: int|
            0 <= i < desc.args@.len() ==> out@[i]@ == (#[trigger] spec_resolve_one(
                desc.args@,
                desc.attrs@,
                pos.deep_view(),
                opt_kw_view(kwargs),
                location@,
                i,
            ))->Ok_0,
        r is None ==> (final(st).pending matches Some(err) && (exists|e: crate::marshal::CallErrV|
            first_resolve_error(
                desc.args@,
                desc.attrs@,
                pos.deep_view(),
                opt_kw_view(kwargs),
                location@,
                e,
            ) && err.message@ == error_message(e))),
{
    let outcome = match kwargs {
        Some(k) => crate::marshal::resolve_arguments(location, desc, pos, k),
        None => {
            let empty = KwArgs::empty();
            proof {
                assert(empty@ =~= opt_kw_view(kwargs));
            }
            crate::marshal::resolve_arguments(location, desc, pos, &empty)
        },
    };
    match outcome {
        Ok(vals) => Some(vals),
        Err(e) => {
            let msg = render_call_error(&e);
            st.pending = Some(PyErr { message: msg });
            None
        },
    }
}

/// Leaves the callback-safety boundary with the native body's outcome: a
/// result converts to a runtime object; an error is restored into the
/// active-exception slot and the failure sentinel is returned; an unwind
/// cannot be translated and aborts the process.  A sentinel return is
/// always paired with a set exception — the host never observes a bare
/// failure, nor an exception behind a successful-looking result.
pub fn complete_call(outcome: NativeOutcome, st: &mut RuntimeState) -> (r: WrapExit)
    requires
        old(st).pending is None,
    ensures
        final(st).initialized == old(st).initialized,
        final(st).threads_ready == old(st).threads_ready,
        outcome matches NativeOutcome::Done(v) ==> r == WrapExit::Obj(v)
            && final(st).pending is None,
        outcome matches NativeOutcome::Failed(e) ==> r == WrapExit::Sentinel && final(st).pending
            == Some(e),
        outcome is Panicked ==> r == WrapExit::Aborted,
        r is Sentinel <==> final(st).pending is Some,
{
    match outcome {
        NativeOutcome::Done(v) => WrapExit::Obj(v),
        NativeOutcome::Failed(e) => {
            st.pending = Some(e);
            WrapExit::Sentinel
        },
        NativeOutcome::Panicked => WrapExit::Aborted,
    }
}

/// The diagnostic text of an argument-resolution error.
pub fn render_call_error(e: &CallError) -> (r: String)
    ensures
        r@ == error_message(e@),
{
    match e {
        CallError::Missing { arg, location } => {
            let mut s = location.clone();
            s.append(": missing required argument '");
            s.append(arg.as_str());
            s.append("'");
            s
        },
        CallError::Conversion { arg, location } => {
            let mut s = location.clone();
            s.append(": cannot convert argument '");
            s.append(arg.as_str());
            s.append("'");
            s
        },
    }
}

/// What the environment decides during one module initialization: whether
/// the runtime hands out a module object, whether it wraps into a typed
/// handle, whether the documentation attribute attaches, and what the
/// user's setup function returns.
#[derive(Debug)]
pub struct InitEnv {
    pub create_ok: bool,
    pub cast_ok: bool,
    pub doc_ok: bool,
    pub setup: Result<(), PyErr>,
}

/// Which steps of one module initialization ran.
#[derive(Debug, PartialEq, Eq)]
pub struct InitTrace {
    /// The boot step found the runtime not yet initialized.
    pub fresh_boot: bool,
    /// The module object was created.
    pub created: bool,
    /// The documentation attribute was attached.
    pub doc_attached: bool,
    /// The user's setup function was invoked.
    pub setup_ran: bool,
}

/// How a generated module initializer reports to the host loader.
#[derive(Debug, PartialEq, Eq)]
pub enum InitExit {
    /// Success: the module handle is the result (a null-free object pointer
    /// under the modern protocol; under the legacy protocol the module is
    /// already registered by side effect).
    Module,
    /// Failure: the sentinel is returned (a null pointer under the modern
    /// protocol, a plain return under the legacy one), with the active
    /// exception set.
    Sentinel,
    /// A native defect that cannot be reported: the armed abort guard
    /// terminates the process.
    Aborted,
}

/// The contract of one run of the module-initialization state machine.
pub open spec fn init_post(
    env: InitEnv,
    pre: RuntimeState,
    post: RuntimeState,
    exit: InitExit,
    trace: InitTrace,
) -> bool {
    &&& post.initialized
    &&& post.threads_ready
    &&& trace.fresh_boot == !pre.initialized
    &&& (!env.create_ok ==> exit is Sentinel && !trace.created && !trace.doc_attached
        && !trace.setup_ran)
    &&& (env.create_ok && !env.cast_ok ==> exit is Sentinel && trace.created
        && !trace.doc_attached && !trace.setup_ran)
    &&& (env.create_ok && env.cast_ok && !env.doc_ok ==> exit is Aborted && trace.created
        && !trace.doc_attached && !trace.setup_ran)
    &&& (env.create_ok && env.cast_ok && env.doc_ok ==> trace.created && trace.doc_attached
        && trace.setup_ran)
    &&& (env.create_ok && env.cast_ok && env.doc_ok && env.setup is Ok ==> exit is Module
        && post.pending == pre.pending)
    &&& (env.create_ok && env.cast_ok && env.doc_ok && env.setup is Err ==> exit is Sentinel
        && post.pending == Some(env.setup->Err_0))
    &&& (exit is Sentinel ==> post.pending is Some)
}

/// Runs the module-initialization state machine, shared by the two protocol
/// generations.
///
/// The boot step is idempotent: it establishes the runtime's global state
/// and its threading subsystem whether or not an earlier load already did.
/// A null module object ends the run at once: the sentinel is reported and
/// neither the documentation step nor the user's setup function runs.  A
/// wrap failure restores its error and reports the sentinel.  A failure to
/// attach the documentation attribute marks a broken module object: it is
/// not translated into an exception, the armed guard aborts the process.  A
/// setup error is restored into the active-exception slot; on success the
/// module handle is the result.
pub fn run_module_init(env: &InitEnv, st: &mut RuntimeState) -> (r: (InitExit, InitTrace))
    requires
        old(st).pending is None,
    ensures
        init_post(*env, *old(st), *final(st), r.0, r.1),
{
    let fresh = !st.initialized;
    st.initialized = true;
    st.threads_ready = true;
    if !env.create_ok {
        st.pending = Some(PyErr { message: String::from_str("module creation failed") });
        return (
            InitExit::Sentinel,
            InitTrace { fresh_boot: fresh, created: false, doc_attached: false, setup_ran: false },
        );
    }
    if !env.cast_ok {
        st.pending = Some(
            PyErr { message: String::from_str("module object has the wrong type") },
        );
        return (
            InitExit::Sentinel,
            InitTrace { fresh_boot: fresh, created: true, doc_attached: false, setup_ran: false },
        );
    }
    if !env.doc_ok {
        return (
            InitExit::Aborted,
            InitTrace { fresh_boot: fresh, created: true, doc_attached: false, setup_ran: false },
        );
    }
    match &env.setup {
        Ok(_) => (
            InitExit::Module,
            InitTrace { fresh_boot: fresh, created: true, doc_attached: true, setup_ran: true },
        ),
        Err(e) => {
            st.pending = Some(e.dup());
            (
                InitExit::Sentinel,
                InitTrace { fresh_boot: fresh, created: true, doc_attached: true, setup_ran: true },
            )
        },
    }
}

/// Module initialization may run twice in the same process: each run leaves
/// the runtime booted, and the second run finds the global state already
/// initialized and performs no fresh boot — repeated loads do not corrupt
/// the global runtime state, even though each run creates its own module
/// object.
pub proof fn lemma_repeated_initialization_is_safe(
    env1: InitEnv,
    env2: InitEnv,
    s0: RuntimeState,
    s1: RuntimeState,
    s2: RuntimeState,
    e1: InitExit,
    t1: InitTrace,
    e2: InitExit,
    t2: InitTrace,
)
    requires
        init_post(env1, s0, s1, e1, t1),
        init_post(env2, s1, s2, e2, t2),
    ensures
        s1.initialized && s1.threads_ready,
        s2.initialized && s2.threads_ready,
        !t2.fresh_boot,
        env1.create_ok ==> t1.created,
        env2.create_ok ==> t2.created,
{
}

}
