//! A small ahead-of-time compiler for an eight-instruction tape language.
//!
//! The pipeline has three verified stages: a lexer that maps source
//! characters to instructions, a peephole optimizer that rewrites the
//! instruction stream into a canonical form, and a code generator that
//! lowers the canonical stream into a control-flow graph of a small
//! backend-independent intermediate representation.

pub mod bf;
pub mod compiler;
pub mod interp;
pub mod ir;
