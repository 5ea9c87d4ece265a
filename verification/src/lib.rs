//! Renders a syntax tree of Python back into source text that parses to
//! the same tree.
//!
//! The tree types are in [`ast`]. What a tree renders to is defined in
//! [`expr_model`], [`pattern_model`] and [`stmt_model`] as functions from
//! trees to text; [`Unparser`] writes that text into a buffer, and
//! [`render`] does so for a whole module. What the buffer holds where
//! rendering stops at a failure is defined in [`expr_output`],
//! [`pattern_output`] and [`stmt_output`]. [`faults`] tells which nodes make
//! rendering fail, and [`laws`] holds what is proved of the text for every
//! tree.

pub mod ast;
pub mod error;
pub mod expr_model;
pub mod expr_output;
pub mod expr_parts;
pub mod expr_render;
pub mod faults;
pub mod laws;
pub mod literal;
pub mod pattern_model;
pub mod pattern_output;
pub mod pattern_render;
pub mod precedence;
pub mod stmt_compound;
pub mod stmt_model;
pub mod stmt_output;
pub mod stmt_parts;
pub mod stmt_simple;
pub mod text;
pub mod unparser;

pub use crate::error::UnparseError;
pub use crate::stmt_compound::render;
pub use crate::unparser::Unparser;
