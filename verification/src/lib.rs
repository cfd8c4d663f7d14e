//! Build-configuration resolution and compiler-invocation engine for small
//! C/C++ projects: a declarative settings model, a line-oriented manifest
//! parser, a two-tier dependency store synchronizer, and per-backend
//! derivation of the exact compiler command line, together with the
//! build/run/clean lifecycle decisions.
use vstd::prelude::*;

pub mod error;
pub mod invocation;
pub mod lifecycle;
pub mod manifest;
pub mod paths;
pub mod settings;
pub mod store;
pub mod sync;
pub mod text;

verus! {

} // verus!
