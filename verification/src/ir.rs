//! The intermediate representation: the text of its instructions, and a
//! model of them in which the temporaries stand apart from the text around
//! them.

use crate::decimal::{append_decimal, decimal};
use vstd::prelude::*;

verus! {

/// The text that refers to temporary `id`.
pub open spec fn temporary(id: int) -> Seq<char> {
    "%"@ + decimal(id)
}

/// The line that defines temporary `id` as `mnemonic` applied to the
/// operands `lhs` and `rhs`.
pub open spec fn instruction(id: int, mnemonic: Seq<char>, lhs: Seq<char>, rhs: Seq<char>) -> Seq<
    char,
> {
    "  "@ + temporary(id) + " = "@ + mnemonic + " "@ + lhs + ", "@ + rhs + "\n"@
}

/// The name of temporary `id` as a fresh string.
pub fn temporary_string(id: i32) -> (s: String)
    ensures
        s@ == temporary(id as int),
{
    let mut s = String::from_str("%");
    append_decimal(&mut s, id);
    s
}

/// Appends to `out` the line that defines temporary `id`.
pub fn append_instruction(out: &mut String, id: i32, mnemonic: &str, lhs: &str, rhs: &str)
    ensures
        final(out)@ == old(out)@ + instruction(id as int, mnemonic@, lhs@, rhs@),
{
    out.append("  ");
    out.append("%");
    append_decimal(out, id);
    out.append(" = ");
    out.append(mnemonic);
    out.append(" ");
    out.append(lhs);
    out.append(", ");
    out.append(rhs);
    out.append("\n");
    assert(final(out)@ =~= old(out)@ + instruction(id as int, mnemonic@, lhs@, rhs@));
}

/// What an instruction reads, or a statement returns.
pub enum Operand {
    Literal(int),
    Temporary(int),
}

impl Operand {
    /// How the operand is written: a literal in decimal, a temporary by its
    /// name.
    pub open spec fn text(self) -> Seq<char> {
        match self {
            Operand::Literal(n) => decimal(n),
            Operand::Temporary(id) => temporary(id),
        }
    }

    /// Whether the operand is temporary `id`.
    pub open spec fn mentions(self, id: int) -> bool {
        self == Operand::Temporary(id)
    }
}

/// What an instruction computes from its two operands.
pub enum Opcode {
    Add,
    Sub,
    Mul,
    /// Signed division.
    Sdiv,
    /// Signed remainder.
    Srem,
    /// Equality: one where the operands are equal, zero where they are not.
    Eq,
}

impl Opcode {
    /// The opcode's mnemonic.
    pub open spec fn text(self) -> Seq<char> {
        match self {
            Opcode::Add => "add"@,
            Opcode::Sub => "sub"@,
            Opcode::Mul => "mul"@,
            Opcode::Sdiv => "sdiv"@,
            Opcode::Srem => "srem"@,
            Opcode::Eq => "eq"@,
        }
    }
}

/// One instruction: `target` is the temporary that it defines.
pub struct Instruction {
    pub target: int,
    pub opcode: Opcode,
    pub lhs: Operand,
    pub rhs: Operand,
}

impl Instruction {
    /// The instruction's line.
    pub open spec fn text(self) -> Seq<char> {
        instruction(self.target, self.opcode.text(), self.lhs.text(), self.rhs.text())
    }

    /// Whether temporary `id` appears in the instruction, as what it defines
    /// or as what it reads.
    pub open spec fn mentions(self, id: int) -> bool {
        self.target == id || self.lhs.mentions(id) || self.rhs.mentions(id)
    }
}

/// The text of a run of instructions: their lines, in order.
pub open spec fn render(code: Seq<Instruction>) -> Seq<char>
    decreases code.len(),
{
    if code.len() == 0 {
        Seq::empty()
    } else {
        render(code.drop_last()) + code.last().text()
    }
}

/// Rendering a run with one more instruction adds that instruction's line.
pub proof fn render_push(code: Seq<Instruction>, last: Instruction)
    ensures
        render(code.push(last)) == render(code) + last.text(),
{
    assert(code.push(last).drop_last() =~= code);
}

/// Rendering two runs one after the other joins their texts.
pub proof fn render_concat(first: Seq<Instruction>, second: Seq<Instruction>)
    ensures
        render(first + second) == render(first) + render(second),
    decreases second.len(),
{
    if second.len() == 0 {
        assert(first + second =~= first);
        assert(render(first) + render(second) =~= render(first));
    } else {
        render_concat(first, second.drop_last());
        assert((first + second).drop_last() =~= first + second.drop_last());
        assert(render(first + second) =~= render(first) + render(second));
    }
}

} // verus!
