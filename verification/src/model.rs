//! The mathematical model of an expression tree, and what type inference and
//! rendering mean on it.

use vstd::prelude::*;
use crate::decimal::decimal_text;
use crate::types::{Type, TypeMismatch};

verus! {

/// An expression as a value: names are sequences of characters, children are
/// the expressions themselves, and sharing is invisible.
#[allow(inconsistent_fields)]
pub enum ExprModel {
    ContextAccess,
    Symbol { name: Seq<char>, offset: i64, colocated: bool, preemptible: bool },
    AddImmediate { base: Box<ExprModel>, offset: i64, result_type: Type },
    Load { base: Box<ExprModel>, offset: i32, result_type: Type, readonly: bool },
    Call { callee: Box<ExprModel>, args: Seq<ExprModel>, result_type: Type },
    Conditional {
        condition: Box<ExprModel>,
        then_branch: Box<ExprModel>,
        else_branch: Box<ExprModel>,
    },
}

/// The displacement that follows a symbol's name: nothing for zero, the
/// number with an explicit sign otherwise.
pub open spec fn offset_suffix(offset: int) -> Seq<char> {
    if offset > 0 {
        "+"@ + decimal_text(offset)
    } else if offset < 0 {
        decimal_text(offset)
    } else {
        Seq::empty()
    }
}

/// The word that a set flag contributes to the text, or nothing.
pub open spec fn flag_text(set: bool, word: Seq<char>) -> Seq<char> {
    if set {
        word
    } else {
        Seq::empty()
    }
}

/// The texts of `items` in order, with a comma and a space between each two;
/// nothing for no items.
pub open spec fn rendered_list(items: Seq<ExprModel>) -> Seq<char>
    decreases items,
{
    if items.len() == 0 {
        Seq::empty()
    } else if items.len() == 1 {
        items[0].rendered()
    } else {
        rendered_list(items.drop_last()) + ", "@ + items.last().rendered()
    }
}

impl ExprModel {
    /// No symbol in the tree is both colocated and preemptible.
    pub open spec fn well_formed(self) -> bool
        decreases self,
    {
        match self {
            ExprModel::ContextAccess => true,
            ExprModel::Symbol { colocated, preemptible, .. } => !(colocated && preemptible),
            ExprModel::AddImmediate { base, .. } => base.well_formed(),
            ExprModel::Load { base, .. } => base.well_formed(),
            ExprModel::Call { callee, args, .. } => {
                &&& callee.well_formed()
                &&& forall|i: int| 0 <= i < args.len() ==> (#[trigger] args[i]).well_formed()
            },
            ExprModel::Conditional { condition, then_branch, else_branch } => {
                &&& condition.well_formed()
                &&& then_branch.well_formed()
                &&& else_branch.well_formed()
            },
        }
    }

    /// The type of the value that the expression produces on a target whose
    /// native pointer type is `pointer_type`.
    ///
    /// A context access and a symbol are addresses. Arithmetic, loads and
    /// calls carry their type. A conditional has the type that its two
    /// branches share; where they differ it has none, and the mismatch names
    /// both. A failure inside a branch is the failure of the whole, the
    /// first branch's before the second's.
    pub open spec fn inferred_type(self, pointer_type: Type) -> Result<Type, TypeMismatch>
        decreases self,
    {
        match self {
            ExprModel::ContextAccess => Ok(pointer_type),
            ExprModel::Symbol { .. } => Ok(pointer_type),
            ExprModel::AddImmediate { result_type, .. } => Ok(result_type),
            ExprModel::Load { result_type, .. } => Ok(result_type),
            ExprModel::Call { result_type, .. } => Ok(result_type),
            ExprModel::Conditional { then_branch, else_branch, .. } => {
                match then_branch.inferred_type(pointer_type) {
                    Err(mismatch) => Err(mismatch),
                    Ok(then_type) => match else_branch.inferred_type(pointer_type) {
                        Err(mismatch) => Err(mismatch),
                        Ok(else_type) => if then_type == else_type {
                            Ok(then_type)
                        } else {
                            Err(TypeMismatch { then_type, else_type })
                        },
                    },
                }
            },
        }
    }

    /// The canonical text of the expression.
    ///
    /// - context access: `vmctx`
    /// - symbol: `symbol `, then `colocated ` where the flag is set, the
    ///   name, and the displacement as `offset_suffix` gives it
    /// - addition: `iadd_imm.<type>(<base>, <offset>)`
    /// - load: `load.<type> notrap aligned (<base>+<offset>)`, with
    ///   `readonly ` before the bracket where the flag is set; a negative
    ///   offset follows the plus sign with its own sign
    /// - call: `call.<type>(<callee>, <argument>, <argument>)`; the separator
    ///   after the callee stays where there is no argument:
    ///   `call.<type>(<callee>, )`
    /// - conditional: `if <condition> { <then_branch> } else { <else_branch> }`
    ///
    /// The text shows stored fields only. A context access and a symbol carry
    /// no type, whatever the target, and `preemptible` is not shown.
    pub open spec fn rendered(self) -> Seq<char>
        decreases self,
    {
        match self {
            ExprModel::ContextAccess => "vmctx"@,
            ExprModel::Symbol { name, offset, colocated, .. } => {
                "symbol "@ + flag_text(colocated, "colocated "@) + name + offset_suffix(
                    offset as int,
                )
            },
            ExprModel::AddImmediate { base, offset, result_type } => {
                "iadd_imm."@ + result_type.name_text() + "("@ + base.rendered() + ", "@
                    + decimal_text(offset as int) + ")"@
            },
            ExprModel::Load { base, offset, result_type, readonly } => {
                "load."@ + result_type.name_text() + " notrap aligned "@ + flag_text(
                    readonly,
                    "readonly "@,
                ) + "("@ + base.rendered() + "+"@ + decimal_text(offset as int) + ")"@
            },
            ExprModel::Call { callee, args, result_type } => {
                "call."@ + result_type.name_text() + "("@ + callee.rendered() + ", "@
                    + rendered_list(args) + ")"@
            },
            ExprModel::Conditional { condition, then_branch, else_branch } => {
                "if "@ + condition.rendered() + " { "@ + then_branch.rendered() + " } else { "@
                    + else_branch.rendered() + " }"@
            },
        }
    }
}

} // verus!
