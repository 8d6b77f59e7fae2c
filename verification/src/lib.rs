//! Generation of conversion-trait implementation blocks for single-field
//! enum variants.
//!
//! Given a description of one variant of an enclosing enum (the enum's
//! identifier and generic parameters, the variant's identifier and field
//! type, and a choice of library bindings), the crate renders the source
//! text of exactly one `From` implementation that wraps a value into that
//! variant, either directly or through an auxiliary `Into`-bounded generic
//! parameter.

pub mod bindings;
pub mod from_impl;
pub mod generics;
pub mod text;
