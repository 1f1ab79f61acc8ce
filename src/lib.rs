//! Per-fork index consistency for an environment-forking dependency resolver.
//!
//! Each resolution fork owns a [`ForkIndexes`] tracker that maps every package
//! to the one registry it is taken from within that fork, and reports a
//! conflict, tagged with the fork's scope, when a second registry is proposed.
//! The [`logging`] module holds the decisions behind the tracing setup.

pub mod error;
pub mod fork_indexes;
pub mod laws;
pub mod logging;
pub mod markers;
pub mod names;
pub mod order;

pub use error::ResolveError;
pub use fork_indexes::ForkIndexes;
pub use markers::{MarkerTree, ResolverMarkers};
pub use names::{IndexUrl, InvalidNameError, PackageName};
