//! A syntax-directed code generator for a small imperative language.
//!
//! The crate models programs as a tree of [`ast::Node`] values and renders
//! them into C-like source text.  Rendering is a pure, total function of the
//! tree: each node maps to exactly one textual fragment, specified by the
//! spec functions in [`compiler`] and proved of the executable renderers.

pub mod ast;
pub mod compiler;
