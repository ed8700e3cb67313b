//! Version-resolution and install-state core of a command-line SDK version
//! manager.
//!
//! Given a candidate name (a runtime or tool identifier) and an optional
//! version string, the library decides the concrete version to operate on,
//! validates it against catalog responses, and maintains the invariants of an
//! on-disk layout in which exactly one version per candidate is marked
//! "current". All filesystem and network traffic stays outside the library:
//! callers gather responses and directory observations and feed them in as
//! plain values.

pub mod install;
pub mod paths;
pub mod registry;
pub mod resolver;
pub mod text;
