//! Derives struct-to-struct conversion code from `convert` attributes.
//!
//! The library reads a record declaration that a front end has already
//! tokenized (field names, field types, attribute tokens), builds a layered
//! configuration of per-field overrides, and synthesizes the text of one
//! conversion routine per declared target.

pub mod error;
pub mod text;
pub mod shape;
pub mod overrides;
pub mod tokens;
pub mod expr;
pub mod parse;
pub mod synth;
