//! Shim generation for a native extension module of a dynamically typed
//! scripting runtime.
//!
//! Given a function declaration annotated with a wrapper directive, the
//! library extracts the directive, builds an argument-descriptor model of the
//! signature, and produces the records from which a fixed-signature entry
//! point and a module initializer are emitted.  The marshaling behaviour of
//! the produced entry points (keyword-first resolution, defaults, the
//! callback-safety boundary, and the module-initialization state machine) is
//! defined here as well, as verified executable functions.

pub mod args;
pub mod ast;
pub mod marshal;
pub mod method;
pub mod module;
pub mod runtime;
pub mod utils;
