//! A verified core for a build tool that evaluates a declarative
//! configuration into named build targets and materializes them on demand,
//! together with a resolver that turns a partially specified embedded
//! interpreter configuration into a fully concrete one.
//!
//! The crate is split into:
//! - [`pathtext`]: textual path helpers (`$ORIGIN` templating, parent
//!   directories) with exact specifications;
//! - [`config`]: the embedded interpreter configuration builder, its
//!   resolver and the resolved, immutable configuration;
//! - [`targets`]: the build environment context holding the target
//!   registry, with its registration and lookup operations;
//! - [`eval`]: the evaluation context driving memoized target builds and
//!   runs, dispatching artifact-kind work to external handlers.

pub mod config;
pub mod eval;
pub mod pathtext;
pub mod targets;
