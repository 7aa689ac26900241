//! Verified core of Cross-Kit: VM metadata contracts, bridge code generation,
//! packaging plans and the example view models.
use vstd::prelude::*;

pub mod text;
pub mod metadata;
pub mod naming;
pub mod codegen;
pub mod config;
pub mod root_graph;
pub mod swift;
pub mod kotlin;
pub mod calendar;

pub mod list_vm;
pub mod counter_vm;
pub mod runtime;
pub mod delivery;
pub mod packaging;
pub mod ios;
pub mod android;
pub mod cli;
pub mod bridge_meta;
pub mod bridge_expand;
pub mod attr_args;
pub mod attribute_swift;

verus! {

} // verus!
