//! Value types, the target-facts collaborator and the error values.

use vstd::prelude::*;

verus! {

/// Constant displacement of a load.
pub type Offset32 = i32;

/// Constant operand of pointer or integer arithmetic.
pub type Imm64 = i64;

/// Name of a symbol that linking resolves later.
pub type ExternalName = String;

/// The type of the value that an expression produces.
#[derive(Clone, Copy, Debug, PartialEq, Eq, Hash, Structural)]
pub enum Type {
    I32,
    I64,
}

impl Type {
    /// The canonical name of the type, as it appears in rendered text.
    pub open spec fn name_text(self) -> Seq<char> {
        match self {
            Type::I32 => "i32"@,
            Type::I64 => "i64"@,
        }
    }

    /// Returns the canonical name of the type.
    pub fn name(&self) -> (text: &'static str)
        ensures
            text@ == self.name_text(),
    {
        match self {
            Type::I32 => "i32",
            Type::I64 => "i64",
        }
    }
}

/// What this library asks of a target: its native pointer type, and nothing
/// else.
pub trait TargetIsa {
    /// The integer type that holds an address on this target.
    fn pointer_type(&self) -> Type;
}

/// A symbol was asked to be both colocated and preemptible.
#[derive(Clone, Copy, Debug, PartialEq, Eq, Hash, Structural)]
pub struct InvalidSymbol;

/// The two branches of a conditional have different types.
#[derive(Clone, Copy, Debug, PartialEq, Eq, Hash, Structural)]
pub struct TypeMismatch {
    pub then_type: Type,
    pub else_type: Type,
}

} // verus!
