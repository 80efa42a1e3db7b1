//! Indexes over a syntax tree.
pub mod arena;
pub mod parent_visitor;
