//! The text of the representation can be read in one way only: a run of
//! instruction lines is the rendering of exactly one run of instructions.
//!
//! An instruction line is made of fields that end at a mark which the field
//! itself cannot hold: the target's number ends at a space, the opcode at a
//! space, the left operand at a comma and the right operand at the line
//! break. So two lines that agree, even with different text after them,
//! agree field by field.

use crate::decimal::{
    decimal, decimal_is_injective, decimal_nat, decimal_nat_reads_back, is_digit,
};
use crate::ir::{render, render_concat, render_push, temporary, Instruction, Opcode, Operand};
use vstd::prelude::*;

verus! {

/// Whether `c` can stand in the text of an operand or of a number.
pub open spec fn is_operand_char(c: char) -> bool {
    c == '%' || c == '-' || is_digit(c)
}

/// A decimal text holds a minus sign and digits only.
pub proof fn decimal_chars(n: int)
    ensures
        decimal(n).len() >= 1,
        forall|i: int| 0 <= i < decimal(n).len() ==> is_operand_char(#[trigger] decimal(n)[i]),
{
    if n < 0 {
        decimal_nat_reads_back((-n) as nat);
        assert forall|i: int| 0 <= i < decimal(n).len() implies is_operand_char(
            #[trigger] decimal(n)[i],
        ) by {
            if i > 0 {
                assert(decimal(n)[i] == decimal_nat((-n) as nat)[i - 1]);
            }
        }
    } else {
        decimal_nat_reads_back(n as nat);
    }
}

/// The text of an operand holds a percent sign, a minus sign and digits
/// only.
pub proof fn operand_chars(operand: Operand)
    ensures
        operand.text().len() >= 1,
        forall|i: int|
            0 <= i < operand.text().len() ==> is_operand_char(#[trigger] operand.text()[i]),
{
    reveal_strlit("%");
    match operand {
        Operand::Literal(n) => {
            decimal_chars(n);
        },
        Operand::Temporary(id) => {
            decimal_chars(id);
            assert forall|i: int| 0 <= i < operand.text().len() implies is_operand_char(
                #[trigger] operand.text()[i],
            ) by {
                if i > 0 {
                    assert(operand.text()[i] == decimal(id)[i - 1]);
                }
            }
        },
    }
}

/// Different temporaries have different names.
pub proof fn temporary_is_injective(a: int, b: int)
    requires
        temporary(a) == temporary(b),
    ensures
        a == b,
{
    reveal_strlit("%");
    assert(temporary(a).subrange(1, temporary(a).len() as int) =~= decimal(a));
    assert(temporary(b).subrange(1, temporary(b).len() as int) =~= decimal(b));
    decimal_is_injective(a, b);
}

/// The text of an operand tells which operand it is: a literal is never
/// written as a temporary is, and different operands of one kind are written
/// differently.
pub proof fn operand_text_is_injective(a: Operand, b: Operand)
    requires
        a.text() == b.text(),
    ensures
        a == b,
{
    reveal_strlit("%");
    match (a, b) {
        (Operand::Literal(m), Operand::Literal(n)) => {
            decimal_is_injective(m, n);
        },
        (Operand::Temporary(m), Operand::Temporary(n)) => {
            temporary_is_injective(m, n);
        },
        (Operand::Literal(m), Operand::Temporary(n)) => {
            literal_starts_without_percent(m);
            assert(temporary(n)[0] == '%');
        },
        (Operand::Temporary(m), Operand::Literal(n)) => {
            literal_starts_without_percent(n);
            assert(temporary(m)[0] == '%');
        },
    }
}

proof fn literal_starts_without_percent(n: int)
    ensures
        decimal(n).len() >= 1,
        decimal(n)[0] != '%',
{
    if n < 0 {
        assert(decimal(n)[0] == '-');
    } else {
        decimal_nat_reads_back(n as nat);
    }
}

/// Different opcodes are written differently, and none with a space.
pub proof fn opcode_text_is_injective(a: Opcode, b: Opcode)
    ensures
        !a.text().contains(' '),
        a.text() == b.text() ==> a == b,
{
    reveal_strlit("add");
    reveal_strlit("sub");
    reveal_strlit("mul");
    reveal_strlit("sdiv");
    reveal_strlit("srem");
    reveal_strlit("eq");
    let s = a.text();
    let t = b.text();
    if s == t {
        assert(s.len() == t.len() && s[0] == t[0] && s[1] == t[1]);
    }
}

/// Two texts that agree, each a field free of `mark`, then `mark`, then a
/// rest, agree in the field and in the rest.
proof fn split_at_mark(x: Seq<char>, r: Seq<char>, y: Seq<char>, s: Seq<char>, mark: char)
    requires
        x + seq![mark] + r == y + seq![mark] + s,
        !x.contains(mark),
        !y.contains(mark),
    ensures
        x == y,
        r == s,
{
    let u = x + seq![mark] + r;
    let v = y + seq![mark] + s;
    if x.len() < y.len() {
        assert(u[x.len() as int] == mark);
        assert(v[x.len() as int] == y[x.len() as int]);
        assert(y.contains(mark));
    }
    if y.len() < x.len() {
        assert(v[y.len() as int] == mark);
        assert(u[y.len() as int] == x[y.len() as int]);
        assert(x.contains(mark));
    }
    assert(x =~= y) by {
        assert forall|i: int| 0 <= i < x.len() implies x[i] == y[i] by {
            assert(u[i] == x[i]);
            assert(v[i] == y[i]);
        }
    }
    assert(u.len() == v.len());
    assert(r =~= s) by {
        assert forall|i: int| 0 <= i < r.len() implies r[i] == s[i] by {
            assert(u[x.len() + 1 + i] == r[i]);
            assert(v[y.len() + 1 + i] == s[i]);
        }
    }
}

spec fn from_rhs(x: Instruction, rest: Seq<char>) -> Seq<char> {
    x.rhs.text() + seq!['\n'] + rest
}

spec fn from_lhs(x: Instruction, rest: Seq<char>) -> Seq<char> {
    x.lhs.text() + seq![','] + (seq![' '] + from_rhs(x, rest))
}

spec fn from_opcode(x: Instruction, rest: Seq<char>) -> Seq<char> {
    x.opcode.text() + seq![' '] + from_lhs(x, rest)
}

spec fn from_target(x: Instruction, rest: Seq<char>) -> Seq<char> {
    decimal(x.target) + seq![' '] + (seq!['=', ' '] + from_opcode(x, rest))
}

/// An instruction line, with whatever follows it, field by field.
proof fn line_fields(x: Instruction, rest: Seq<char>)
    ensures
        x.text() + rest == seq![' ', ' ', '%'] + from_target(x, rest),
{
    reveal_strlit("  ");
    reveal_strlit("%");
    reveal_strlit(" = ");
    reveal_strlit(" ");
    reveal_strlit(", ");
    reveal_strlit("\n");
    assert(x.text() + rest =~= seq![' ', ' ', '%'] + from_target(x, rest));
}

/// No instruction line is the beginning of another: where two lines, each
/// with some text after it, agree as a whole, they are lines of the same
/// instruction and the same text follows.
pub proof fn instruction_text_is_prefix_free(
    a: Instruction,
    rest_a: Seq<char>,
    b: Instruction,
    rest_b: Seq<char>,
)
    requires
        a.text() + rest_a == b.text() + rest_b,
    ensures
        a == b,
        rest_a == rest_b,
{
    line_fields(a, rest_a);
    line_fields(b, rest_b);
    let whole = a.text() + rest_a;
    assert(whole.subrange(3, whole.len() as int) =~= from_target(a, rest_a));
    assert(whole.subrange(3, whole.len() as int) =~= from_target(b, rest_b));

    decimal_chars(a.target);
    decimal_chars(b.target);
    let tail_a = seq!['=', ' '] + from_opcode(a, rest_a);
    let tail_b = seq!['=', ' '] + from_opcode(b, rest_b);
    split_at_mark(decimal(a.target), tail_a, decimal(b.target), tail_b, ' ');
    decimal_is_injective(a.target, b.target);
    assert(tail_a.subrange(2, tail_a.len() as int) =~= from_opcode(a, rest_a));
    assert(tail_b.subrange(2, tail_b.len() as int) =~= from_opcode(b, rest_b));

    opcode_text_is_injective(a.opcode, b.opcode);
    opcode_text_is_injective(b.opcode, a.opcode);
    split_at_mark(a.opcode.text(), from_lhs(a, rest_a), b.opcode.text(), from_lhs(b, rest_b), ' ');

    operand_chars(a.lhs);
    operand_chars(b.lhs);
    let gap_a = seq![' '] + from_rhs(a, rest_a);
    let gap_b = seq![' '] + from_rhs(b, rest_b);
    split_at_mark(a.lhs.text(), gap_a, b.lhs.text(), gap_b, ',');
    operand_text_is_injective(a.lhs, b.lhs);
    assert(gap_a.subrange(1, gap_a.len() as int) =~= from_rhs(a, rest_a));
    assert(gap_b.subrange(1, gap_b.len() as int) =~= from_rhs(b, rest_b));

    operand_chars(a.rhs);
    operand_chars(b.rhs);
    split_at_mark(a.rhs.text(), rest_a, b.rhs.text(), rest_b, '\n');
    operand_text_is_injective(a.rhs, b.rhs);
}

/// Different instructions are written differently.
pub proof fn instruction_text_is_injective(a: Instruction, b: Instruction)
    requires
        a.text() == b.text(),
    ensures
        a == b,
{
    instruction_text_is_prefix_free(a, Seq::empty(), b, Seq::empty());
}

/// The rendering of a run that is not empty begins with the line of its
/// first instruction, and so is not empty.
proof fn render_first(code: Seq<Instruction>)
    requires
        code.len() > 0,
    ensures
        render(code) == code[0].text() + render(code.drop_first()),
        render(code).len() > 0,
{
    let none = Seq::<Instruction>::empty();
    assert(code =~= none.push(code[0]) + code.drop_first());
    render_concat(none.push(code[0]), code.drop_first());
    render_push(none, code[0]);
    assert(render(none) + code[0].text() =~= code[0].text());
    line_fields(code[0], render(code.drop_first()));
}

/// A text is the rendering of at most one run of instructions.
pub proof fn render_is_injective(a: Seq<Instruction>, b: Seq<Instruction>)
    requires
        render(a) == render(b),
    ensures
        a == b,
    decreases a.len(),
{
    if a.len() > 0 {
        render_first(a);
    }
    if b.len() > 0 {
        render_first(b);
    }
    if a.len() > 0 && b.len() > 0 {
        instruction_text_is_prefix_free(
            a[0],
            render(a.drop_first()),
            b[0],
            render(b.drop_first()),
        );
        render_is_injective(a.drop_first(), b.drop_first());
        assert(a.drop_first() == b.drop_first());
        assert forall|i: int| 0 <= i < a.len() implies a[i] == b[i] by {
            if i > 0 {
                assert(a[i] == a.drop_first()[i - 1]);
                assert(b[i] == b.drop_first()[i - 1]);
            }
        }
    }
    assert(a.len() == b.len());
    assert(a =~= b);
}

} // verus!
