//! AbySS: a small scripting-language runtime.
//!
//! The crate evaluates a typed abstract syntax tree against a mutable,
//! block-scoped environment.  Everything the evaluator decides is verified;
//! the two things it cannot compute by itself — host floating-point
//! arithmetic for `aether` values and the standard input stream — are
//! modelled as collaborators: the caller supplies a table of
//! floating-point answers and a queue of input lines, and evaluation
//! halts with an explicit request whenever an answer is missing.

pub mod ast;
pub mod env;
pub mod host;
pub mod laws;
pub mod sem;
pub mod eval;
pub mod text;

pub use ast::AssignmentOp;
pub use ast::LineInfo;
pub use ast::Type;
