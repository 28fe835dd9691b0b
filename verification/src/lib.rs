//! Audits a multi-package workspace for declared dependencies that no build
//! artifact actually uses, and for non-library artifacts that never reference
//! their own package's library.
//!
//! The crate normalizes a raw package graph into indexed lookup structures,
//! resolves native-link environment keys back to the packages that published
//! them, correlates a streamed build-event protocol with the graph, squashes
//! raw diagnostics against the realized artifacts, merges the independent
//! documentation-example evidence pass, and plans manifest edits that remove
//! confirmed-unused entries.

pub mod args;
pub mod artifact;
pub mod correlate;
pub mod fix;
pub mod laws;
pub mod links;
pub mod model;
pub mod names;
pub mod normalize;
pub mod passes;
pub mod squash;
pub mod text;
pub mod version;

use vstd::prelude::*;

verus! {

/// The kind under which a dependency is declared in a manifest.
#[derive(Clone, Copy, Debug, Hash, PartialEq, Eq, Structural)]
pub enum DependencyKind {
    Normal,
    Development,
    Build,
}

} // verus!
