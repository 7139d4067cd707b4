//! Core of a binding generator: an in-memory type library with multi-pass
//! name resolution, a conversion classifier, and per-signal trampoline
//! analysis feeding a text-emission layer that lives outside this crate.

pub mod analysis;
pub mod config;
pub mod env;
pub mod library;
pub mod nameutil;
pub mod version;

pub use version::Version;
