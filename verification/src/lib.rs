//! A compile-time rewriter for error-propagation sites.
//!
//! Given the body of a function, the engine wraps every reachable `?` site so
//! that the generated code reports the source location and the error's display
//! form on the error stream before propagating the error.  An options record
//! controls whether the walk enters nested closures and nested item
//! definitions.  The host-toolchain binding that parses source text into the
//! tree model and serializes it back lives outside this crate.

pub mod ast;
pub mod diag;
pub mod engine;
pub mod formatting;
pub mod laws;
pub mod options;
