//! Glue source for calling native functions from Deno.
//!
//! From a description of native functions and of the types they use,
//! this crate generates the TypeScript that calls them through Deno's
//! foreign function interface: it lays composite types out in memory,
//! converts values in both directions, and emits every helper once.
//!
//! - [`types`] holds the type definitions, their layout and their
//!   descriptors; [`function`], [`loader`] and [`library`] emit the
//!   wrappers, the bootstrap and the whole output; [`document`] builds
//!   a library from plain data.
//! - [`ir`] generates bindings from an inventory of native symbols.
//! - [`macros`] computes what the extraction of native declarations
//!   needs, and [`cargo`] what building the native library needs.
//! - [`text`], [`source`], [`ordered`] and [`inflect`] are the
//!   building blocks underneath.
pub mod cargo;
pub mod document;
pub mod error;
pub mod example;
pub mod function;
pub mod inflect;
pub mod ir;
pub mod library;
pub mod loader;
pub mod macros;
pub mod ordered;
pub mod source;
pub mod text;
pub mod types;
