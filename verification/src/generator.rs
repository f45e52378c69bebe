//! The declarative description of a handle type and what is generated from
//! it.
//!
//! A description is written as a short token sequence: the type's name, an
//! optional display name, and optional sections for its function table, its
//! class binding and its capabilities. [`input::ObjectInput::parse`] reads
//! the tokens and [`emit::define_object`] turns them into the list of items
//! to generate.

pub mod token;
pub mod input;
pub mod emit;
