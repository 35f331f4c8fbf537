//! Rewrites delegating yields inside generator functions into plain yields of
//! a call to an imported helper: `yield* e` becomes `(yield $$inline(e))`.
//!
//! The transform works on a small syntax tree ([`ast::Node`]) that keeps what
//! the rewrite reads and builds. [`rewrite`] says over mathematical trees
//! what the transform computes, [`visitor`] and [`traverse`] compute it and
//! are verified against that, and [`laws`] proves what holds of it on every
//! input. [`comments`] finds the marker by which one function opts out.

pub mod ast;
pub mod comments;
pub mod rewrite;
pub mod visitor;
pub mod traverse;
pub mod laws;

pub use crate::traverse::process_transform;
pub use crate::visitor::InlineTransformVisitor;
