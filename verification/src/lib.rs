//! Veritas SPARK core runtime library: the decision logic of a sandboxed,
//! offline inference runtime (validation of requests and deployment specs,
//! resource accounting, traffic splitting, protocol negotiation and the
//! GPU/backend bookkeeping), with its behaviour stated and proved.
#![allow(unused_imports)]

use vstd::prelude::*;

pub mod text;
pub mod k8s;
pub mod memory;
pub mod engine;
pub mod ab_testing;
pub mod ipc;
pub mod ffi;
pub mod cli;
pub mod time;
pub mod deployment;

verus! {

} // verus!
