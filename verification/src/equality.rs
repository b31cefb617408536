//! Value equality of expression trees.

use vstd::prelude::*;
use vstd::std_specs::cmp::PartialEqSpecImpl;
use crate::expr::{models, CodeExpr};

verus! {

/// Whether the two lists hold equal expressions at every place.
fn same_list(left: &Vec<CodeExpr>, right: &Vec<CodeExpr>) -> (same: bool)
    ensures
        same == (models(left@) == models(right@)),
    decreases left,
{
    if left.len() != right.len() {
        assert(models(left@).len() != models(right@).len());
        return false;
    }
    let mut i: usize = 0;
    while i < left.len()
        invariant
            i <= left.len(),
            left.len() == right.len(),
            forall|j: int| 0 <= j < i ==> (#[trigger] left@[j])@ == right@[j]@,
        decreases left.len() - i,
    {
        if !left[i].same_as(&right[i]) {
            assert(models(left@)[i as int] != models(right@)[i as int]);
            return false;
        }
        i += 1;
    }
    assert(models(left@) =~= models(right@));
    true
}

impl CodeExpr {
    /// Whether `self` and `other` are the same tree: the same variant at
    /// every node, with the same field values.
    pub fn same_as(&self, other: &CodeExpr) -> (same: bool)
        ensures
            same == (self@ == other@),
        decreases self,
    {
        match (self, other) {
            (CodeExpr::ContextAccess, CodeExpr::ContextAccess) => true,
            (
                CodeExpr::Symbol { name, offset, colocated, preemptible },
                CodeExpr::Symbol {
                    name: other_name,
                    offset: other_offset,
                    colocated: other_colocated,
                    preemptible: other_preemptible,
                },
            ) => {
                *name == *other_name && *offset == *other_offset && *colocated == *other_colocated
                    && *preemptible == *other_preemptible
            },
            (
                CodeExpr::AddImmediate { base, offset, result_type },
                CodeExpr::AddImmediate {
                    base: other_base,
                    offset: other_offset,
                    result_type: other_type,
                },
            ) => {
                *offset == *other_offset && *result_type == *other_type && base.same_as(
                    other_base,
                )
            },
            (
                CodeExpr::Load { base, offset, result_type, readonly },
                CodeExpr::Load {
                    base: other_base,
                    offset: other_offset,
                    result_type: other_type,
                    readonly: other_readonly,
                },
            ) => {
                *offset == *other_offset && *result_type == *other_type && *readonly
                    == *other_readonly && base.same_as(other_base)
            },
            (
                CodeExpr::Call { callee, args, result_type },
                CodeExpr::Call { callee: other_callee, args: other_args, result_type: other_type },
            ) => {
                *result_type == *other_type && callee.same_as(other_callee) && same_list(
                    args,
                    other_args,
                )
            },
            (
                CodeExpr::Conditional { condition, then_branch, else_branch },
                CodeExpr::Conditional {
                    condition: other_condition,
                    then_branch: other_then,
                    else_branch: other_else,
                },
            ) => {
                condition.same_as(other_condition) && then_branch.same_as(other_then)
                    && else_branch.same_as(other_else)
            },
            _ => false,
        }
    }
}

impl PartialEq for CodeExpr {
    /// Two trees are equal where they are the same value, whatever they
    /// share.
    fn eq(&self, other: &Self) -> (same: bool) {
        self.same_as(other)
    }
}

impl PartialEqSpecImpl for CodeExpr {
    open spec fn obeys_eq_spec() -> bool {
        true
    }

    open spec fn eq_spec(&self, other: &Self) -> bool {
        self@ == other@
    }
}

impl Eq for CodeExpr {

}

} // verus!
