//! What holds of the temporaries that lowering hands out: they are numbered
//! consecutively from the starting number, each is defined once and before
//! it is read, and the two operands of a binary operation share none.

use crate::ast::{BinaryOp, Exp, InfoView, Stmt, UnaryOp};
use crate::decimal::decimal;
use crate::ir::{instruction, render, Instruction, Operand};
use crate::reading::render_is_injective;
use vstd::prelude::*;

verus! {

/// Whether an operand is a literal or a temporary numbered from `low` up to,
/// but not including, `high`.
pub open spec fn defined_between(operand: Operand, low: int, high: int) -> bool {
    match operand {
        Operand::Literal(_) => true,
        Operand::Temporary(id) => low <= id < high,
    }
}

/// Whether the instructions define the temporaries `start`, `start + 1`, and
/// so on, in that order, and each reads only temporaries that an earlier one
/// of them defines.
pub open spec fn well_numbered(code: Seq<Instruction>, start: int) -> bool {
    forall|i: int|
        0 <= i < code.len() ==> {
            &&& (#[trigger] code[i]).target == start + i
            &&& defined_between(code[i].lhs, start, start + i)
            &&& defined_between(code[i].rhs, start, start + i)
        }
}

/// Lowering an expression from `start` emits one instruction for each of its
/// temporaries; the instructions are well numbered from `start`, and the
/// operand that stands for the expression is a literal or one of the
/// temporaries they define.
pub proof fn lowering_is_well_numbered(exp: Exp, start: int)
    ensures
        exp.code(start).len() == exp.temporaries(),
        well_numbered(exp.code(start), start),
        defined_between(exp.operand(start), start, start + exp.temporaries()),
    decreases exp,
{
    match exp {
        Exp::Number { .. } => {},
        Exp::UnaryExp { op, exp: inner } => {
            lowering_is_well_numbered(*inner, start);
        },
        Exp::BinaryExp { lhs, rhs, .. } => {
            let middle = start + lhs.temporaries();
            lowering_is_well_numbered(*lhs, start);
            lowering_is_well_numbered(*rhs, middle);
            let left = lhs.code(start);
            let right = rhs.code(middle);
            let code = exp.code(start);
            assert forall|i: int| 0 <= i < code.len() implies {
                &&& (#[trigger] code[i]).target == start + i
                &&& defined_between(code[i].lhs, start, start + i)
                &&& defined_between(code[i].rhs, start, start + i)
            } by {
                if i < left.len() {
                    assert(code[i] == left[i]);
                } else if i < left.len() + right.len() {
                    assert(code[i] == right[i - left.len()]);
                }
            }
        },
    }
}

/// A literal lowers to its own decimal text: it emits no instruction and
/// leaves the counter where it was.
pub proof fn literal_lowers_to_itself(num: i32, start: int)
    ensures
        (Exp::Number { num }).lower(start) == (InfoView {
            context: Seq::empty(),
            expr: decimal(num as int),
            id_begin: start,
            id_end: start,
        }),
{
}

/// A unary plus lowers exactly as its operand does: the same text, the same
/// counter, the same instructions.
pub proof fn unary_plus_is_elided(exp: Exp, start: int)
    ensures
        ({
            let plus = Exp::UnaryExp { op: UnaryOp::Pos, exp: Box::new(exp) };
            &&& plus.lower(start) == exp.lower(start)
            &&& plus.temporaries() == exp.temporaries()
            &&& plus.code(start) == exp.code(start)
            &&& plus.operand(start) == exp.operand(start)
        }),
{
}

/// The counter never moves backward: it advances by the number of
/// temporaries that the expression defines.
pub proof fn counter_never_moves_backward(exp: Exp, start: int)
    ensures
        exp.lower(start).id_begin == start,
        exp.lower(start).id_end == start + exp.temporaries(),
        exp.lower(start).id_end >= start,
{
    exp.lower_renders_code(start);
}

/// No temporary is defined twice: two different instructions of one lowering
/// have different targets.
pub proof fn no_temporary_is_defined_twice(exp: Exp, start: int, i: int, j: int)
    requires
        0 <= i < exp.code(start).len(),
        0 <= j < exp.code(start).len(),
        i != j,
    ensures
        exp.code(start)[i].target != exp.code(start)[j].target,
{
    lowering_is_well_numbered(exp, start);
}

/// Every temporary that appears in the instructions of a lowering, defined
/// or read, is one of those that the lowering hands out.
pub proof fn mentioned_temporaries_are_handed_out(exp: Exp, start: int, i: int, id: int)
    requires
        0 <= i < exp.code(start).len(),
        exp.code(start)[i].mentions(id),
    ensures
        start <= id < start + exp.temporaries(),
{
    lowering_is_well_numbered(exp, start);
}

/// In a binary operation the right operand is numbered from where the left
/// one ended, the instructions of the two are emitted one run after the
/// other, and no temporary that appears in the left operand's instructions
/// appears in the right operand's.
pub proof fn operands_share_no_temporary(lhs: Exp, op: BinaryOp, rhs: Exp, start: int)
    ensures
        ({
            let whole = Exp::BinaryExp { lhs: Box::new(lhs), op, rhs: Box::new(rhs) };
            let middle = lhs.lower(start).id_end;
            let left = lhs.code(start);
            let right = rhs.code(middle);
            &&& whole.lower(start).context == lhs.lower(start).context + rhs.lower(
                middle,
            ).context + instruction(
                rhs.lower(middle).id_end,
                op.mnemonic(),
                lhs.lower(start).expr,
                rhs.lower(middle).expr,
            )
            &&& lhs.lower(start).context == render(left)
            &&& rhs.lower(middle).context == render(right)
            &&& whole.code(start).drop_last() == left + right
            &&& forall|i: int, j: int, id: int|
                0 <= i < left.len() && 0 <= j < right.len() && #[trigger] left[i].mentions(id)
                    ==> !#[trigger] right[j].mentions(id)
        }),
{
    let whole = Exp::BinaryExp { lhs: Box::new(lhs), op, rhs: Box::new(rhs) };
    let middle = lhs.lower(start).id_end;
    let left = lhs.code(start);
    let right = rhs.code(middle);
    lhs.lower_renders_code(start);
    rhs.lower_renders_code(middle);
    lowering_is_well_numbered(lhs, start);
    lowering_is_well_numbered(rhs, middle);
    assert(whole.code(start).drop_last() =~= left + right);
    assert forall|i: int, j: int, id: int|
        0 <= i < left.len() && 0 <= j < right.len() && #[trigger] left[i].mentions(id)
        implies !#[trigger] right[j].mentions(id) by {
        mentioned_temporaries_are_handed_out(lhs, start, i, id);
        if right[j].mentions(id) {
            mentioned_temporaries_are_handed_out(rhs, middle, j, id);
        }
    }
}

/// The same of the emitted text itself: however the texts emitted for the
/// two operands of a binary operation are read as instructions, no temporary
/// that appears in the left one appears in the right one.
pub proof fn operand_texts_share_no_temporary(
    lhs: Exp,
    rhs: Exp,
    start: int,
    left: Seq<Instruction>,
    right: Seq<Instruction>,
)
    requires
        render(left) == lhs.lower(start).context,
        render(right) == rhs.lower(lhs.lower(start).id_end).context,
    ensures
        forall|i: int, j: int, id: int|
            0 <= i < left.len() && 0 <= j < right.len() && #[trigger] left[i].mentions(id)
                ==> !#[trigger] right[j].mentions(id),
{
    operands_share_no_temporary(lhs, BinaryOp::Add, rhs, start);
    render_is_injective(left, lhs.code(start));
    render_is_injective(right, rhs.code(lhs.lower(start).id_end));
}

/// The instructions of a statement are numbered from zero, and what it
/// returns is a literal or a temporary that they define.
pub proof fn statement_is_well_numbered(stmt: Stmt)
    ensures
        stmt.text() == render(stmt.exp.code(0)) + "  ret "@ + stmt.exp.operand(0).text() + "\n"@,
        stmt.exp.code(0).len() == stmt.exp.temporaries(),
        well_numbered(stmt.exp.code(0), 0),
        defined_between(stmt.exp.operand(0), 0, stmt.exp.temporaries() as int),
{
    stmt.exp.lower_renders_code(0);
    lowering_is_well_numbered(*stmt.exp, 0);
}

} // verus!
