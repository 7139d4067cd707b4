//! The binding-analysis passes: conversion classification, per-function
//! deprecation decisions, signal trampoline synthesis, and generic-bound
//! inference.

pub mod bounds;
pub mod conversion_type;
pub mod functions;
pub mod parameter;
pub mod rust_type;
pub mod trampolines;
