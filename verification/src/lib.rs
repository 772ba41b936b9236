//! Platform metadata for a build planner, learned by probing the toolchain:
//! how artifacts are named for each crate type, which conditional-compilation
//! predicates a platform exposes, where the toolchain's libraries live, and
//! which extra flags the compiler and the documentation generator get.
//!
//! The library itself runs no process. It builds the probe command lines,
//! decodes captured probe output, and answers the planner's queries; the
//! callers run the invocations and hand the outcomes back.

pub mod cfg;
pub mod data;
pub mod errors;
pub mod flags;
pub mod kinds;
pub mod naming;
pub mod probe;
pub mod strutil;
