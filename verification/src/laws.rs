//! What holds of every expression tree.

use vstd::prelude::*;
use vstd::std_specs::cmp::PartialEqSpec;
use crate::decimal::natural_text;
use crate::expr::{models, CodeExpr};
use crate::model::{offset_suffix, rendered_list, ExprModel};
use crate::types::{Type, TypeMismatch};

verus! {

/// Rendering is deterministic: whatever two calls of `render` on one tree
/// return, it is the same text.
pub proof fn render_is_deterministic(node: CodeExpr, first: String, second: String)
    requires
        CodeExpr::render.ensures((&node,), first),
        CodeExpr::render.ensures((&node,), second),
    ensures
        first@ == second@,
{
}

/// Equal trees have the same text.
pub proof fn equal_trees_render_alike(left: CodeExpr, right: CodeExpr, first: String, second: String)
    requires
        left.eq_spec(&right),
        CodeExpr::render.ensures((&left,), first),
        CodeExpr::render.ensures((&right,), second),
    ensures
        first@ == second@,
{
}

/// The displacement after a symbol's name is nothing for zero, and
/// otherwise a sign, `+` or `-`, before the digits of the magnitude.
pub proof fn symbol_offset_shows_its_sign(offset: int)
    ensures
        offset == 0 ==> offset_suffix(offset) == Seq::<char>::empty(),
        offset > 0 ==> offset_suffix(offset) == seq!['+'] + natural_text(offset as nat),
        offset < 0 ==> offset_suffix(offset) == seq!['-'] + natural_text((-offset) as nat),
{
    reveal_strlit("+");
    assert("+"@ =~= seq!['+']);
}

/// A call without arguments keeps the separator after its callee.
pub proof fn call_without_arguments_keeps_the_separator(node: CodeExpr, text: String)
    requires
        node is Call,
        node->args@.len() == 0,
        CodeExpr::render.ensures((&node,), text),
    ensures
        text@ == "call."@ + node->Call_result_type.name_text() + "("@
            + node->callee@.rendered() + ", )"@,
{
    reveal_strlit(", ");
    reveal_strlit(")");
    reveal_strlit(", )");
    let shown = "call."@ + node->Call_result_type.name_text() + "("@ + node->callee@.rendered();
    assert(models(node->args@) =~= Seq::<ExprModel>::empty());
    assert(rendered_list(models(node->args@)) =~= Seq::<char>::empty());
    assert(shown + ", "@ + Seq::<char>::empty() + ")"@ =~= shown + ", )"@);
}

/// The type of a conditional, for a given pointer type: a failure inside
/// the first branch, else one inside the second, else the type that the
/// two branches share, else the mismatch that names both. It is never the
/// type of one branch where the other has another.
pub proof fn conditional_type(
    node: CodeExpr,
    pointer_type: Type,
    result: Result<Type, TypeMismatch>,
)
    requires
        node is Conditional,
        CodeExpr::result_type_with.ensures((&node, pointer_type), result),
    ensures
        match (
            node->then_branch@.inferred_type(pointer_type),
            node->else_branch@.inferred_type(pointer_type),
        ) {
            (Err(mismatch), _) => result == Err::<Type, TypeMismatch>(mismatch),
            (Ok(_), Err(mismatch)) => result == Err::<Type, TypeMismatch>(mismatch),
            (Ok(then_type), Ok(else_type)) => result == if then_type == else_type {
                Ok(then_type)
            } else {
                Err(TypeMismatch { then_type, else_type })
            },
        },
{
}

/// On every target, a conditional whose branches have types that do not
/// depend on the target has their common type, and fails with the mismatch
/// of the two where they differ: whatever the target answers, `result_type`
/// returns no other `result`.
pub proof fn conditional_type_on_any_target(
    node: CodeExpr,
    then_type: Type,
    else_type: Type,
    result: Result<Type, TypeMismatch>,
)
    requires
        node is Conditional,
        forall|pointer_type: Type| #[trigger]
            node->then_branch@.inferred_type(pointer_type) == Ok::<Type, TypeMismatch>(then_type),
        forall|pointer_type: Type| #[trigger]
            node->else_branch@.inferred_type(pointer_type) == Ok::<Type, TypeMismatch>(else_type),
        exists|pointer_type: Type| result == node@.inferred_type(pointer_type),
    ensures
        then_type == else_type ==> result == Ok::<Type, TypeMismatch>(then_type),
        then_type != else_type ==> result == Err::<Type, TypeMismatch>(
            TypeMismatch { then_type, else_type },
        ),
{
    let answer = choose|pointer_type: Type| result == node@.inferred_type(pointer_type);
    assert(node->then_branch@.inferred_type(answer) == Ok::<Type, TypeMismatch>(then_type));
    assert(node->else_branch@.inferred_type(answer) == Ok::<Type, TypeMismatch>(else_type));
}

/// Whether two nodes are of the same variant and agree in every field,
/// children and arguments compared as values.
pub open spec fn fields_agree(left: CodeExpr, right: CodeExpr) -> bool {
    match (left, right) {
        (CodeExpr::ContextAccess, CodeExpr::ContextAccess) => true,
        (
            CodeExpr::Symbol { name, offset, colocated, preemptible },
            CodeExpr::Symbol {
                name: other_name,
                offset: other_offset,
                colocated: other_colocated,
                preemptible: other_preemptible,
            },
        ) => {
            &&& name@ == other_name@
            &&& offset == other_offset
            &&& colocated == other_colocated
            &&& preemptible == other_preemptible
        },
        (
            CodeExpr::AddImmediate { base, offset, result_type },
            CodeExpr::AddImmediate { base: other_base, offset: other_offset, result_type: other_type },
        ) => {
            &&& base@ == other_base@
            &&& offset == other_offset
            &&& result_type == other_type
        },
        (
            CodeExpr::Load { base, offset, result_type, readonly },
            CodeExpr::Load {
                base: other_base,
                offset: other_offset,
                result_type: other_type,
                readonly: other_readonly,
            },
        ) => {
            &&& base@ == other_base@
            &&& offset == other_offset
            &&& result_type == other_type
            &&& readonly == other_readonly
        },
        (
            CodeExpr::Call { callee, args, result_type },
            CodeExpr::Call { callee: other_callee, args: other_args, result_type: other_type },
        ) => {
            &&& callee@ == other_callee@
            &&& args@.len() == other_args@.len()
            &&& forall|i: int| 0 <= i < args@.len() ==> (#[trigger] args@[i])@ == other_args@[i]@
            &&& result_type == other_type
        },
        (
            CodeExpr::Conditional { condition, then_branch, else_branch },
            CodeExpr::Conditional {
                condition: other_condition,
                then_branch: other_then,
                else_branch: other_else,
            },
        ) => {
            &&& condition@ == other_condition@
            &&& then_branch@ == other_then@
            &&& else_branch@ == other_else@
        },
        _ => false,
    }
}

/// Equality is structural: two nodes are equal exactly when they are of the
/// same variant and every field agrees, so two trees built alike are equal
/// and two that differ in a single field are not.
pub proof fn equality_is_structural(left: CodeExpr, right: CodeExpr)
    ensures
        left.eq_spec(&right) <==> fields_agree(left, right),
{
    match (left, right) {
        (
            CodeExpr::Call { args, .. },
            CodeExpr::Call { args: other_args, .. },
        ) => {
            let listed = models(args@);
            let other_listed = models(other_args@);
            assert(left@->args == listed);
            assert(right@->args == other_listed);
            if fields_agree(left, right) {
                assert forall|i: int| 0 <= i < listed.len() implies listed[i]
                    == other_listed[i] by {
                    assert(args@[i]@ == other_args@[i]@);
                }
                assert(listed =~= other_listed);
            }
            if left@ == right@ {
                assert forall|i: int| 0 <= i < args@.len() implies (#[trigger] args@[i])@
                    == other_args@[i]@ by {
                    assert(listed[i] == other_listed[i]);
                }
            }
        },
        _ => {},
    }
}

/// Equality is an equivalence.
pub proof fn equality_is_an_equivalence(a: CodeExpr, b: CodeExpr, c: CodeExpr)
    ensures
        a.eq_spec(&a),
        a.eq_spec(&b) ==> b.eq_spec(&a),
        a.eq_spec(&b) && b.eq_spec(&c) ==> a.eq_spec(&c),
{
}

} // verus!

