//! An in-memory model of a program's documentable surface: crates, modules,
//! functions, types, traits, implementations, and their prose. The tree is
//! built once by an upstream extractor and read many times by renderers,
//! through capability-based item accessors and variant-narrowing filters.

pub mod document;
pub mod eq;
pub mod filtering;
pub mod item;
pub mod model;
pub mod pages;
