//! The expression tree and its construction.

use std::rc::Rc;
use vstd::prelude::*;
use crate::model::ExprModel;
use crate::types::{ExternalName, Imm64, InvalidSymbol, Offset32, Type};

verus! {

/// A "code expression": a small computation that can be expanded into code
/// or interpreted directly.
///
/// A node is immutable once built. Children are reference-counted, so one
/// subexpression may serve several parents; a tree never contains itself.
#[derive(Debug, Hash)]
#[allow(inconsistent_fields)]
pub enum CodeExpr {
    /// The address of the ambient execution-context record.
    ContextAccess,
    /// An address that linking resolves later, plus a constant displacement.
    Symbol {
        /// The symbolic name.
        name: ExternalName,
        /// Displacement from the symbol.
        offset: Imm64,
        /// Whether the symbol ends up within a fixed short distance of its
        /// use, so that references to it need no indirection table.
        colocated: bool,
        /// Whether the definition may be replaced at load time. A preemptible
        /// symbol is never colocated.
        preemptible: bool,
    },
    /// A value plus a constant.
    AddImmediate {
        /// The base value.
        base: Rc<CodeExpr>,
        /// The constant added to it.
        offset: Imm64,
        /// The type of the sum.
        result_type: Type,
    },
    /// A value read from memory at `base + offset`.
    Load {
        /// The base pointer.
        base: Rc<CodeExpr>,
        /// Displacement added to the base pointer.
        offset: Offset32,
        /// The type of the loaded value.
        result_type: Type,
        /// Whether the memory cannot change between two reads, so that a
        /// repeated load may be dropped.
        readonly: bool,
    },
    /// A function call: direct where `callee` is a symbol, indirect
    /// otherwise.
    Call {
        /// The expression to call.
        callee: Rc<CodeExpr>,
        /// The arguments, in order.
        args: Vec<CodeExpr>,
        /// The type of the call's result.
        result_type: Type,
    },
    /// A choice between two values by a boolean condition.
    Conditional {
        /// The condition.
        condition: Rc<CodeExpr>,
        /// The value where the condition holds.
        then_branch: Rc<CodeExpr>,
        /// The value where it does not.
        else_branch: Rc<CodeExpr>,
    },
}

/// The models of the expressions in `items`, in order.
pub open spec fn models(items: Seq<CodeExpr>) -> Seq<ExprModel>
    decreases items,
{
    Seq::new(
        items.len(),
        |i: int|
            if 0 <= i < items.len() {
                items[i].model()
            } else {
                arbitrary()
            },
    )
}

impl View for CodeExpr {
    type V = ExprModel;

    open spec fn view(&self) -> ExprModel {
        self.model()
    }
}

impl CodeExpr {
    /// The tree as a mathematical value.
    pub open spec fn model(&self) -> ExprModel
        decreases self,
    {
        match self {
            CodeExpr::ContextAccess => ExprModel::ContextAccess,
            CodeExpr::Symbol { name, offset, colocated, preemptible } => ExprModel::Symbol {
                name: name@,
                offset: *offset,
                colocated: *colocated,
                preemptible: *preemptible,
            },
            CodeExpr::AddImmediate { base, offset, result_type } => ExprModel::AddImmediate {
                base: Box::new(base.model()),
                offset: *offset,
                result_type: *result_type,
            },
            CodeExpr::Load { base, offset, result_type, readonly } => ExprModel::Load {
                base: Box::new(base.model()),
                offset: *offset,
                result_type: *result_type,
                readonly: *readonly,
            },
            CodeExpr::Call { callee, args, result_type } => ExprModel::Call {
                callee: Box::new(callee.model()),
                args: models(args@),
                result_type: *result_type,
            },
            CodeExpr::Conditional { condition, then_branch, else_branch } => {
                ExprModel::Conditional {
                    condition: Box::new(condition.model()),
                    then_branch: Box::new(then_branch.model()),
                    else_branch: Box::new(else_branch.model()),
                }
            },
        }
    }

    /// Whether the tree meets the rule that construction enforces: no symbol
    /// in it is both colocated and preemptible. A tree that the constructors
    /// built from well-formed children is well formed.
    pub open spec fn well_formed(&self) -> bool {
        self@.well_formed()
    }

    /// The address of the execution-context record.
    pub fn context_access() -> (node: CodeExpr)
        ensures
            node == CodeExpr::ContextAccess,
            node.well_formed(),
    {
        CodeExpr::ContextAccess
    }

    /// A symbol with a displacement. Fails where the symbol is asked to be
    /// both colocated and preemptible, and then builds nothing.
    pub fn symbol(name: ExternalName, offset: Imm64, colocated: bool, preemptible: bool) -> (node:
        Result<CodeExpr, InvalidSymbol>)
        ensures
            colocated && preemptible <==> node is Err,
            node matches Ok(symbol) ==> symbol == (CodeExpr::Symbol {
                name,
                offset,
                colocated,
                preemptible,
            }) && symbol.well_formed(),
    {
        if colocated && preemptible {
            Err(InvalidSymbol)
        } else {
            Ok(CodeExpr::Symbol { name, offset, colocated, preemptible })
        }
    }

    /// `base` plus the constant `offset`, of type `result_type`.
    pub fn add_immediate(base: Rc<CodeExpr>, offset: Imm64, result_type: Type) -> (node: CodeExpr)
        ensures
            node == (CodeExpr::AddImmediate { base, offset, result_type }),
            node.well_formed() <==> base.well_formed(),
    {
        CodeExpr::AddImmediate { base, offset, result_type }
    }

    /// The value of type `result_type` at address `base + offset`.
    pub fn load(base: Rc<CodeExpr>, offset: Offset32, result_type: Type, readonly: bool) -> (node:
        CodeExpr)
        ensures
            node == (CodeExpr::Load { base, offset, result_type, readonly }),
            node.well_formed() <==> base.well_formed(),
    {
        CodeExpr::Load { base, offset, result_type, readonly }
    }

    /// A call of `callee` with `args`, of type `result_type`.
    pub fn call(callee: Rc<CodeExpr>, args: Vec<CodeExpr>, result_type: Type) -> (node: CodeExpr)
        ensures
            node == (CodeExpr::Call { callee, args, result_type }),
            node.well_formed() <==> callee.well_formed() && forall|i: int|
                0 <= i < args@.len() ==> (#[trigger] args@[i]).well_formed(),
    {
        proof {
            let listed = models(args@);
            let whole = ExprModel::Call { callee: Box::new(callee@), args: listed, result_type };
            assert(whole->args == listed);
            if whole.well_formed() {
                assert forall|i: int| 0 <= i < args@.len() implies (#[trigger] args@[i])
                    .well_formed() by {
                    assert(listed[i].well_formed());
                }
            }
            if forall|i: int| 0 <= i < args@.len() ==> (#[trigger] args@[i]).well_formed() {
                assert forall|i: int| 0 <= i < listed.len() implies (#[trigger] listed[i])
                    .well_formed() by {
                    assert(args@[i].well_formed());
                }
            }
        }
        CodeExpr::Call { callee, args, result_type }
    }

    /// The choice between `then_branch` and `else_branch` by `condition`.
    /// The branches' types are not compared here, only when the type of the
    /// node is asked for.
    pub fn conditional(
        condition: Rc<CodeExpr>,
        then_branch: Rc<CodeExpr>,
        else_branch: Rc<CodeExpr>,
    ) -> (node: CodeExpr)
        ensures
            node == (CodeExpr::Conditional { condition, then_branch, else_branch }),
            node.well_formed() <==> condition.well_formed() && then_branch.well_formed()
                && else_branch.well_formed(),
    {
        CodeExpr::Conditional { condition, then_branch, else_branch }
    }

    /// The name of a symbol. The caller checks the variant first: only
    /// symbols have names.
    pub fn symbol_name(&self) -> (name: &ExternalName)
        requires
            self is Symbol,
        ensures
            *name == self->name,
    {
        match self {
            CodeExpr::Symbol { name, .. } => name,
            _ => vstd::pervasive::unreached(),
        }
    }
}

/// A copy of `items`, place by place.
fn clone_list(items: &Vec<CodeExpr>) -> (copy: Vec<CodeExpr>)
    ensures
        models(copy@) == models(items@),
    decreases items,
{
    let mut copy: Vec<CodeExpr> = Vec::new();
    let mut i: usize = 0;
    while i < items.len()
        invariant
            i <= items.len(),
            copy@.len() == i,
            forall|j: int| 0 <= j < i ==> (#[trigger] copy@[j])@ == items@[j]@,
        decreases items.len() - i,
    {
        copy.push(items[i].clone());
        i += 1;
    }
    assert(models(copy@) =~= models(items@));
    copy
}

impl Clone for CodeExpr {
    /// A tree equal to this one. The copy shares this tree's children; the
    /// arguments of a call are copied one by one.
    fn clone(&self) -> (copy: Self)
        ensures
            copy@ == self@,
        decreases self,
    {
        match self {
            CodeExpr::ContextAccess => CodeExpr::ContextAccess,
            CodeExpr::Symbol { name, offset, colocated, preemptible } => CodeExpr::Symbol {
                name: name.clone(),
                offset: *offset,
                colocated: *colocated,
                preemptible: *preemptible,
            },
            CodeExpr::AddImmediate { base, offset, result_type } => CodeExpr::AddImmediate {
                base: Rc::clone(base),
                offset: *offset,
                result_type: *result_type,
            },
            CodeExpr::Load { base, offset, result_type, readonly } => CodeExpr::Load {
                base: Rc::clone(base),
                offset: *offset,
                result_type: *result_type,
                readonly: *readonly,
            },
            CodeExpr::Call { callee, args, result_type } => CodeExpr::Call {
                callee: Rc::clone(callee),
                args: clone_list(args),
                result_type: *result_type,
            },
            CodeExpr::Conditional { condition, then_branch, else_branch } => {
                CodeExpr::Conditional {
                    condition: Rc::clone(condition),
                    then_branch: Rc::clone(then_branch),
                    else_branch: Rc::clone(else_branch),
                }
            },
        }
    }
}

} // verus!
