//! Type inference.

use vstd::prelude::*;
use crate::expr::CodeExpr;
use crate::types::{TargetIsa, Type, TypeMismatch};

verus! {

impl CodeExpr {
    /// The type of this expression on a target whose native pointer type is
    /// `pointer_type`, or the mismatch of the first conditional, in
    /// evaluation order, whose branches disagree.
    pub fn result_type_with(&self, pointer_type: Type) -> (result: Result<Type, TypeMismatch>)
        ensures
            result == self@.inferred_type(pointer_type),
        decreases self,
    {
        match self {
            CodeExpr::ContextAccess => Ok(pointer_type),
            CodeExpr::Symbol { .. } => Ok(pointer_type),
            CodeExpr::AddImmediate { result_type, .. } => Ok(*result_type),
            CodeExpr::Load { result_type, .. } => Ok(*result_type),
            CodeExpr::Call { result_type, .. } => Ok(*result_type),
            CodeExpr::Conditional { then_branch, else_branch, .. } => {
                let then_type = match then_branch.result_type_with(pointer_type) {
                    Ok(found) => found,
                    Err(mismatch) => {
                        return Err(mismatch);
                    },
                };
                let else_type = match else_branch.result_type_with(pointer_type) {
                    Ok(found) => found,
                    Err(mismatch) => {
                        return Err(mismatch);
                    },
                };
                if then_type == else_type {
                    Ok(then_type)
                } else {
                    Err(TypeMismatch { then_type, else_type })
                }
            },
        }
    }

    /// The type of this expression on the target `isa`.
    ///
    /// The target is asked once for its native pointer type, and the answer
    /// decides as `result_type_with` says. Nothing is known of the answer
    /// itself, so the result is the inferred type for one of the possible
    /// pointer types.
    pub fn result_type(&self, isa: &dyn TargetIsa) -> (result: Result<Type, TypeMismatch>)
        ensures
            exists|pointer_type: Type| result == self@.inferred_type(pointer_type),
    {
        let pointer_type = isa.pointer_type();
        self.result_type_with(pointer_type)
    }
}

} // verus!
