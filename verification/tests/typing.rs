use codeexpr::{CodeExpr, TargetIsa, Type, TypeMismatch};
use std::cell::Cell;
use std::rc::Rc;

struct Wide;

impl TargetIsa for Wide {
    fn pointer_type(&self) -> Type {
        Type::I64
    }
}

struct Narrow;

impl TargetIsa for Narrow {
    fn pointer_type(&self) -> Type {
        Type::I32
    }
}

struct Counting {
    asked: Cell<u32>,
}

impl TargetIsa for Counting {
    fn pointer_type(&self) -> Type {
        self.asked.set(self.asked.get() + 1);
        Type::I64
    }
}

fn vmctx() -> Rc<CodeExpr> {
    Rc::new(CodeExpr::context_access())
}

fn symbol(name: &str) -> CodeExpr {
    CodeExpr::symbol(name.to_string(), 0, false, false).unwrap()
}

fn typed(result_type: Type) -> Rc<CodeExpr> {
    Rc::new(CodeExpr::load(vmctx(), 0, result_type, false))
}

#[test]
fn context_access_has_the_pointer_type() {
    assert_eq!(CodeExpr::context_access().result_type(&Wide), Ok(Type::I64));
    assert_eq!(CodeExpr::context_access().result_type(&Narrow), Ok(Type::I32));
}

#[test]
fn symbol_has_the_pointer_type() {
    assert_eq!(symbol("foo").result_type(&Wide), Ok(Type::I64));
    assert_eq!(symbol("foo").result_type(&Narrow), Ok(Type::I32));
}

#[test]
fn annotated_nodes_have_their_stored_type() {
    let sum = CodeExpr::add_immediate(vmctx(), 4, Type::I32);
    assert_eq!(sum.result_type(&Wide), Ok(Type::I32));
    assert_eq!(sum.result_type(&Narrow), Ok(Type::I32));
    let load = CodeExpr::load(vmctx(), 4, Type::I64, true);
    assert_eq!(load.result_type(&Wide), Ok(Type::I64));
    assert_eq!(load.result_type(&Narrow), Ok(Type::I64));
    let call = CodeExpr::call(Rc::new(symbol("f")), vec![symbol("a")], Type::I32);
    assert_eq!(call.result_type(&Wide), Ok(Type::I32));
    assert_eq!(call.result_type(&Narrow), Ok(Type::I32));
}

#[test]
fn annotated_type_is_not_inferred_from_children() {
    let mismatched = Rc::new(CodeExpr::conditional(vmctx(), typed(Type::I32), typed(Type::I64)));
    let sum = CodeExpr::add_immediate(Rc::clone(&mismatched), 1, Type::I64);
    assert_eq!(sum.result_type(&Wide), Ok(Type::I64));
    let load = CodeExpr::load(Rc::clone(&mismatched), 1, Type::I32, false);
    assert_eq!(load.result_type(&Wide), Ok(Type::I32));
    let call = CodeExpr::call(
        Rc::clone(&mismatched),
        vec![CodeExpr::conditional(vmctx(), typed(Type::I64), typed(Type::I32))],
        Type::I64,
    );
    assert_eq!(call.result_type(&Wide), Ok(Type::I64));
}

#[test]
fn conditional_has_the_common_branch_type() {
    let both_narrow = CodeExpr::conditional(vmctx(), typed(Type::I32), typed(Type::I32));
    assert_eq!(both_narrow.result_type(&Wide), Ok(Type::I32));
    let both_wide = CodeExpr::conditional(vmctx(), typed(Type::I64), typed(Type::I64));
    assert_eq!(both_wide.result_type(&Narrow), Ok(Type::I64));
}

#[test]
fn conditional_with_mismatched_branches_fails() {
    let node = CodeExpr::conditional(vmctx(), typed(Type::I32), typed(Type::I64));
    let expected = Err(TypeMismatch { then_type: Type::I32, else_type: Type::I64 });
    assert_eq!(node.result_type(&Wide), expected);
    assert_eq!(node.result_type(&Narrow), expected);
}

#[test]
fn mismatch_names_the_branches_in_order() {
    let node = CodeExpr::conditional(vmctx(), typed(Type::I64), typed(Type::I32));
    let expected = Err(TypeMismatch { then_type: Type::I64, else_type: Type::I32 });
    assert_eq!(node.result_type(&Wide), expected);
    assert_eq!(node.result_type(&Narrow), expected);
}

#[test]
fn condition_type_is_not_checked() {
    let condition = Rc::new(CodeExpr::conditional(vmctx(), typed(Type::I32), typed(Type::I64)));
    let node = CodeExpr::conditional(condition, typed(Type::I64), typed(Type::I64));
    assert_eq!(node.result_type(&Wide), Ok(Type::I64));
}

#[test]
fn pointer_typed_branch_depends_on_the_target() {
    let node = CodeExpr::conditional(
        vmctx(),
        Rc::new(symbol("foo")),
        Rc::new(CodeExpr::load(vmctx(), 32, Type::I32, false)),
    );
    assert_eq!(node.result_type(&Narrow), Ok(Type::I32));
    assert_eq!(
        node.result_type(&Wide),
        Err(TypeMismatch { then_type: Type::I64, else_type: Type::I32 })
    );
}

#[test]
fn two_pointer_typed_branches_agree_on_every_target() {
    let node = CodeExpr::conditional(vmctx(), vmctx(), Rc::new(symbol("foo")));
    assert_eq!(node.result_type(&Wide), Ok(Type::I64));
    assert_eq!(node.result_type(&Narrow), Ok(Type::I32));
}

#[test]
fn failure_in_the_first_branch_comes_first() {
    let first = Rc::new(CodeExpr::conditional(vmctx(), typed(Type::I32), typed(Type::I64)));
    let second = Rc::new(CodeExpr::conditional(vmctx(), typed(Type::I64), typed(Type::I32)));
    let node = CodeExpr::conditional(vmctx(), first, second);
    assert_eq!(
        node.result_type(&Wide),
        Err(TypeMismatch { then_type: Type::I32, else_type: Type::I64 })
    );
}

#[test]
fn failure_in_the_second_branch_is_reported() {
    let second = Rc::new(CodeExpr::conditional(vmctx(), typed(Type::I64), typed(Type::I32)));
    let node = CodeExpr::conditional(vmctx(), typed(Type::I32), second);
    assert_eq!(
        node.result_type(&Wide),
        Err(TypeMismatch { then_type: Type::I64, else_type: Type::I32 })
    );
}

#[test]
fn nested_conditionals_with_one_type() {
    let inner = Rc::new(CodeExpr::conditional(vmctx(), typed(Type::I32), typed(Type::I32)));
    let node = CodeExpr::conditional(vmctx(), Rc::clone(&inner), typed(Type::I32));
    assert_eq!(node.result_type(&Wide), Ok(Type::I32));
    let other = CodeExpr::conditional(vmctx(), inner, typed(Type::I64));
    assert_eq!(
        other.result_type(&Wide),
        Err(TypeMismatch { then_type: Type::I32, else_type: Type::I64 })
    );
}

#[test]
fn result_type_with_takes_the_pointer_type_directly() {
    let node = CodeExpr::conditional(vmctx(), vmctx(), typed(Type::I64));
    assert_eq!(node.result_type_with(Type::I64), Ok(Type::I64));
    assert_eq!(
        node.result_type_with(Type::I32),
        Err(TypeMismatch { then_type: Type::I32, else_type: Type::I64 })
    );
    assert_eq!(symbol("s").result_type_with(Type::I32), Ok(Type::I32));
    assert_eq!(CodeExpr::add_immediate(vmctx(), 0, Type::I64).result_type_with(Type::I32), Ok(Type::I64));
}

#[test]
fn the_target_is_asked_once() {
    let target = Counting { asked: Cell::new(0) };
    let node = CodeExpr::conditional(vmctx(), vmctx(), Rc::new(symbol("foo")));
    assert_eq!(node.result_type(&target), Ok(Type::I64));
    assert_eq!(target.asked.get(), 1);
    assert_eq!(CodeExpr::add_immediate(vmctx(), 0, Type::I32).result_type(&target), Ok(Type::I32));
    assert_eq!(target.asked.get(), 2);
}

#[test]
fn result_type_is_the_same_on_every_query() {
    let node = CodeExpr::conditional(vmctx(), typed(Type::I32), typed(Type::I64));
    assert_eq!(node.result_type(&Wide), node.result_type(&Wide));
    let fine = CodeExpr::conditional(vmctx(), typed(Type::I32), typed(Type::I32));
    assert_eq!(fine.result_type(&Wide), fine.result_type(&Wide));
}
