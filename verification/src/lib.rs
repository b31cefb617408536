//! Expression layer of a code-generation pipeline: a typed, immutable tree of
//! small computations (context access, symbolic addresses, pointer arithmetic,
//! loads, calls, conditional selection) with type inference and a canonical
//! textual form.

pub mod decimal;
pub mod equality;
pub mod expr;
pub mod laws;
pub mod model;
pub mod render;
pub mod types;
pub mod typing;

pub use crate::expr::CodeExpr;
pub use crate::model::ExprModel;
pub use crate::types::{ExternalName, Imm64, InvalidSymbol, Offset32, TargetIsa, Type, TypeMismatch};
