//! Canonical text of an expression.

use vstd::prelude::*;
use vstd::seq_lib::lemma_concat_associative;
use vstd::string::StringExecFns;
use crate::decimal::{append_decimal, decimal_text};
use crate::expr::{models, CodeExpr};
use crate::model::{flag_text, offset_suffix, rendered_list};

verus! {

/// What has been written once `piece` follows `done`. Appending `piece` to
/// a text that is `start` and then `done` gives `start` and then the result.
proof fn written(start: Seq<char>, done: Seq<char>, piece: Seq<char>) -> (next: Seq<char>)
    ensures
        next == done + piece,
        (start + done) + piece == start + next,
{
    lemma_concat_associative(start, done, piece);
    done + piece
}

/// Appends the texts of `items` to `out`, with a comma and a space between
/// each two.
fn render_list_into(items: &Vec<CodeExpr>, out: &mut String)
    ensures
        final(out)@ == old(out)@ + rendered_list(models(items@)),
    decreases items,
{
    let ghost start = out@;
    let ghost listed = models(items@);
    let mut i: usize = 0;
    assert(out@ =~= start + rendered_list(listed.take(0)));
    while i < items.len()
        invariant
            i <= items.len(),
            listed == models(items@),
            out@ == start + rendered_list(listed.take(i as int)),
        decreases items.len() - i,
    {
        let ghost shorter = listed.take(i as int);
        let ghost longer = listed.take(i + 1);
        proof {
            assert(longer.drop_last() =~= shorter);
            assert(longer.last() == items@[i as int]@);
        }
        if i > 0 {
            out.append(", ");
            proof {
                lemma_concat_associative(start, rendered_list(shorter), ", "@);
            }
        }
        items[i].render_into(out);
        proof {
            if i > 0 {
                lemma_concat_associative(
                    start,
                    rendered_list(shorter) + ", "@,
                    items@[i as int]@.rendered(),
                );
            } else {
                assert(rendered_list(shorter) =~= Seq::<char>::empty());
                assert(start + rendered_list(shorter) =~= start);
            }
        }
        i += 1;
    }
    assert(listed.take(i as int) =~= listed);
}

impl CodeExpr {
    /// Appends the canonical text of this expression to `out`.
    pub fn render_into(&self, out: &mut String)
        ensures
            final(out)@ == old(out)@ + self@.rendered(),
        decreases self,
    {
        let ghost start = out@;
        match self {
            CodeExpr::ContextAccess => {
                out.append("vmctx");
            },
            CodeExpr::Symbol { name, offset, colocated, .. } => {
                out.append("symbol ");
                if *colocated {
                    out.append("colocated ");
                }
                out.append(name.as_str());
                let ghost before_offset = out@;
                if *offset > 0 {
                    out.append("+");
                }
                if *offset != 0 {
                    append_decimal(out, *offset);
                }
                proof {
                    let done = "symbol "@;
                    let done = written(start, done, flag_text(*colocated, "colocated "@));
                    let done = written(start, done, name@);
                    if *offset > 0 {
                        lemma_concat_associative(
                            before_offset,
                            "+"@,
                            decimal_text(*offset as int),
                        );
                    }
                    written(start, done, offset_suffix(*offset as int));
                }
            },
            CodeExpr::AddImmediate { base, offset, result_type } => {
                out.append("iadd_imm.");
                out.append(result_type.name());
                out.append("(");
                base.render_into(out);
                out.append(", ");
                append_decimal(out, *offset);
                out.append(")");
                proof {
                    let done = "iadd_imm."@;
                    let done = written(start, done, result_type.name_text());
                    let done = written(start, done, "("@);
                    let done = written(start, done, base@.rendered());
                    let done = written(start, done, ", "@);
                    let done = written(start, done, decimal_text(*offset as int));
                    written(start, done, ")"@);
                }
            },
            CodeExpr::Load { base, offset, result_type, readonly } => {
                out.append("load.");
                out.append(result_type.name());
                out.append(" notrap aligned ");
                if *readonly {
                    out.append("readonly ");
                }
                out.append("(");
                base.render_into(out);
                out.append("+");
                append_decimal(out, *offset as i64);
                out.append(")");
                proof {
                    let done = "load."@;
                    let done = written(start, done, result_type.name_text());
                    let done = written(start, done, " notrap aligned "@);
                    let done = written(start, done, flag_text(*readonly, "readonly "@));
                    let done = written(start, done, "("@);
                    let done = written(start, done, base@.rendered());
                    let done = written(start, done, "+"@);
                    let done = written(start, done, decimal_text(*offset as int));
                    written(start, done, ")"@);
                }
            },
            CodeExpr::Call { callee, args, result_type } => {
                out.append("call.");
                out.append(result_type.name());
                out.append("(");
                callee.render_into(out);
                out.append(", ");
                render_list_into(args, out);
                out.append(")");
                proof {
                    let done = "call."@;
                    let done = written(start, done, result_type.name_text());
                    let done = written(start, done, "("@);
                    let done = written(start, done, callee@.rendered());
                    let done = written(start, done, ", "@);
                    let done = written(start, done, rendered_list(models(args@)));
                    written(start, done, ")"@);
                }
            },
            CodeExpr::Conditional { condition, then_branch, else_branch } => {
                out.append("if ");
                condition.render_into(out);
                out.append(" { ");
                then_branch.render_into(out);
                out.append(" } else { ");
                else_branch.render_into(out);
                out.append(" }");
                proof {
                    let done = "if "@;
                    let done = written(start, done, condition@.rendered());
                    let done = written(start, done, " { "@);
                    let done = written(start, done, then_branch@.rendered());
                    let done = written(start, done, " } else { "@);
                    let done = written(start, done, else_branch@.rendered());
                    written(start, done, " }"@);
                }
            },
        }
    }

    /// The canonical text of this expression. It shows the stored fields
    /// only, and is the same for equal trees.
    pub fn render(&self) -> (text: String)
        ensures
            text@ == self@.rendered(),
    {
        let mut text = String::new();
        self.render_into(&mut text);
        assert(text@ =~= self@.rendered());
        text
    }
}

} // verus!
