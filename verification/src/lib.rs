//! Helpers for building plugin-style shared libraries whose undefined symbols
//! are resolved by the host program at load time.
//!
//! The crate answers two questions for a build: which linker directives have to
//! be handed to the build tool so that the link step tolerates undefined
//! symbols, and where the finished shared library is going to be placed.
//! Everything is a function of explicit inputs (target platform, build profile,
//! working directory, package name), so every answer can be stated and proved.

pub mod platform;
pub mod libname;
pub mod flags;
pub mod artifact;
pub mod text;

pub use crate::artifact::{cdylib_path, ArtifactPath, LocateError};
pub use crate::flags::buildflags;
pub use crate::libname::pkgname_to_libname;
pub use crate::platform::{Platform, Profile};
