//! Catacombs: a channel specification compiler and wiring linker.
//!
//! From a declarative specification text the library produces a list of
//! [`dsl::ChannelSpec`] records, derives the deterministic names of every
//! generated endpoint type and registry accessor, builds runtime channel
//! holders with point-to-point and broadcast semantics, links consuming
//! components to their designated initializers, and renders the source of
//! the registry singleton and of the endpoint-acquisition code.

use vstd::prelude::*;

pub mod channels;
pub mod codegen;
pub mod dsl;
pub mod linker;
pub mod naming;
pub mod registry;
pub mod scan;

verus! {

/// Delivery semantics of a declared channel: `Mpsc` is point-to-point
/// (one exclusive receiver), `Mpmc` is broadcast (any number of
/// independent subscribers).
#[derive(Clone, Copy, PartialEq, Eq, Structural, Debug)]
pub enum ChannelType {
    Mpsc,
    Mpmc,
}

} // verus!
