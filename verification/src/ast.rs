//! The syntax tree of a program of one function that returns one
//! expression, and its lowering to the textual intermediate representation.
//!
//! Lowering walks an expression depth first, left to right. Each unary minus,
//! logical not and binary operation emits one instruction that defines a
//! fresh numbered temporary; a literal and a unary plus emit nothing. The next
//! free number is handed into and out of every call, never kept in shared
//! state.

use crate::decimal::{decimal, decimal_string};
use crate::ir::{
    append_instruction, instruction, render, render_concat, render_push, temporary,
    temporary_string, Instruction, Opcode, Operand,
};
use vstd::prelude::*;

verus! {

/// What lowering one expression yields.
#[derive(Debug)]
pub struct Info {
    /// The instructions emitted for the expression, one per line.
    pub context: String,
    /// The operand that stands for the expression's value: a decimal literal
    /// or a temporary, `%` and its number.
    pub expr: String,
    /// The first number that was free when lowering began.
    pub id_begin: i32,
    /// The first number that is still free after lowering.
    pub id_end: i32,
}

/// The mathematical content of an [`Info`].
pub struct InfoView {
    pub context: Seq<char>,
    pub expr: Seq<char>,
    pub id_begin: int,
    pub id_end: int,
}

impl View for Info {
    type V = InfoView;

    open spec fn view(&self) -> InfoView {
        InfoView {
            context: self.context@,
            expr: self.expr@,
            id_begin: self.id_begin as int,
            id_end: self.id_end as int,
        }
    }
}

/// A compilation unit: exactly one function.
#[derive(Debug)]
pub struct CompUnit {
    pub func_def: FuncDef,
}

/// A function without parameters: its return type, its name and its body.
#[derive(Debug)]
pub struct FuncDef {
    pub func_type: FuncType,
    pub ident: String,
    pub block: Block,
}

/// A function body: exactly one statement.
#[derive(Debug)]
pub struct Block {
    pub stmt: Stmt,
}

/// The return type of a function.
#[derive(Debug)]
pub enum FuncType {
    Int,
}

/// A return statement and the expression that it returns.
#[derive(Debug)]
pub struct Stmt {
    pub exp: Box<Exp>,
}

/// An expression over 32-bit signed integers.
#[derive(Debug)]
#[allow(inconsistent_fields)]
pub enum Exp {
    Number { num: i32 },
    UnaryExp { op: UnaryOp, exp: Box<Exp> },
    BinaryExp { lhs: Box<Exp>, op: BinaryOp, rhs: Box<Exp> },
}

#[derive(Debug)]
pub enum UnaryOp {
    /// Unary plus, which lowering passes over.
    Pos,
    /// Unary minus, lowered to a subtraction from zero.
    Neg,
    /// Logical not, lowered to a comparison with zero.
    Not,
}

#[derive(Debug)]
pub enum BinaryOp {
    Add,
    Sub,
    Mul,
    Div,
    Mod,
}

impl BinaryOp {
    /// The instruction name of the operator; division and remainder are the
    /// signed ones.
    pub open spec fn mnemonic(self) -> Seq<char> {
        match self {
            BinaryOp::Add => "add"@,
            BinaryOp::Sub => "sub"@,
            BinaryOp::Mul => "mul"@,
            BinaryOp::Div => "sdiv"@,
            BinaryOp::Mod => "srem"@,
        }
    }

    /// The operator as an instruction's opcode.
    pub open spec fn opcode(self) -> Opcode {
        match self {
            BinaryOp::Add => Opcode::Add,
            BinaryOp::Sub => Opcode::Sub,
            BinaryOp::Mul => Opcode::Mul,
            BinaryOp::Div => Opcode::Sdiv,
            BinaryOp::Mod => Opcode::Srem,
        }
    }

    fn mnemonic_str(&self) -> (s: &'static str)
        ensures
            s@ == self.mnemonic(),
    {
        match self {
            BinaryOp::Add => "add",
            BinaryOp::Sub => "sub",
            BinaryOp::Mul => "mul",
            BinaryOp::Div => "sdiv",
            BinaryOp::Mod => "srem",
        }
    }

    /// The instruction name of the operator.
    pub fn dump(&self) -> (s: String)
        ensures
            s@ == self.mnemonic(),
    {
        String::from_str(self.mnemonic_str())
    }
}

impl FuncType {
    /// The name of the type in the intermediate representation.
    pub open spec fn mnemonic(self) -> Seq<char> {
        match self {
            FuncType::Int => "i32"@,
        }
    }

    /// The name of the type in the intermediate representation.
    pub fn dump(&self) -> (s: String)
        ensures
            s@ == self.mnemonic(),
    {
        match self {
            FuncType::Int => String::from_str("i32"),
        }
    }
}

impl Exp {
    /// How many temporaries lowering the expression defines: one for each
    /// unary minus, logical not and binary operation in it.
    pub open spec fn temporaries(self) -> nat
        decreases self,
    {
        match self {
            Exp::Number { .. } => 0,
            Exp::UnaryExp { op: UnaryOp::Pos, exp } => exp.temporaries(),
            Exp::UnaryExp { exp, .. } => exp.temporaries() + 1,
            Exp::BinaryExp { lhs, rhs, .. } => lhs.temporaries() + rhs.temporaries() + 1,
        }
    }

    /// The result of lowering the expression when `start` is the first free
    /// number.
    pub open spec fn lower(self, start: int) -> InfoView
        decreases self,
    {
        match self {
            Exp::Number { num } => InfoView {
                context: Seq::empty(),
                expr: decimal(num as int),
                id_begin: start,
                id_end: start,
            },
            Exp::UnaryExp { op, exp } => {
                let inner = exp.lower(start);
                match op {
                    UnaryOp::Pos => inner,
                    UnaryOp::Neg => InfoView {
                        context: inner.context + instruction(
                            inner.id_end,
                            "sub"@,
                            "0"@,
                            inner.expr,
                        ),
                        expr: temporary(inner.id_end),
                        id_begin: inner.id_begin,
                        id_end: inner.id_end + 1,
                    },
                    UnaryOp::Not => InfoView {
                        context: inner.context + instruction(
                            inner.id_end,
                            "eq"@,
                            inner.expr,
                            "0"@,
                        ),
                        expr: temporary(inner.id_end),
                        id_begin: inner.id_begin,
                        id_end: inner.id_end + 1,
                    },
                }
            },
            Exp::BinaryExp { lhs, op, rhs } => {
                let left = lhs.lower(start);
                let right = rhs.lower(left.id_end);
                InfoView {
                    context: left.context + right.context + instruction(
                        right.id_end,
                        op.mnemonic(),
                        left.expr,
                        right.expr,
                    ),
                    expr: temporary(right.id_end),
                    id_begin: left.id_begin,
                    id_end: right.id_end + 1,
                }
            },
        }
    }

    /// The operand that stands for the expression's value when `start` is
    /// the first free number: the literal itself, or the temporary that the
    /// expression's last instruction defines.
    pub open spec fn operand(self, start: int) -> Operand
        decreases self,
    {
        match self {
            Exp::Number { num } => Operand::Literal(num as int),
            Exp::UnaryExp { op: UnaryOp::Pos, exp } => exp.operand(start),
            Exp::UnaryExp { exp, .. } => Operand::Temporary(start + exp.temporaries()),
            Exp::BinaryExp { lhs, rhs, .. } => Operand::Temporary(
                start + lhs.temporaries() + rhs.temporaries(),
            ),
        }
    }

    /// The instructions that lowering the expression emits when `start` is
    /// the first free number.
    pub open spec fn code(self, start: int) -> Seq<Instruction>
        decreases self,
    {
        match self {
            Exp::Number { .. } => Seq::empty(),
            Exp::UnaryExp { op: UnaryOp::Pos, exp } => exp.code(start),
            Exp::UnaryExp { op: UnaryOp::Neg, exp } => exp.code(start).push(
                Instruction {
                    target: start + exp.temporaries(),
                    opcode: Opcode::Sub,
                    lhs: Operand::Literal(0),
                    rhs: exp.operand(start),
                },
            ),
            Exp::UnaryExp { op: UnaryOp::Not, exp } => exp.code(start).push(
                Instruction {
                    target: start + exp.temporaries(),
                    opcode: Opcode::Eq,
                    lhs: exp.operand(start),
                    rhs: Operand::Literal(0),
                },
            ),
            Exp::BinaryExp { lhs, op, rhs } => {
                let middle = start + lhs.temporaries();
                (lhs.code(start) + rhs.code(middle)).push(
                    Instruction {
                        target: middle + rhs.temporaries(),
                        opcode: op.opcode(),
                        lhs: lhs.operand(start),
                        rhs: rhs.operand(middle),
                    },
                )
            },
        }
    }

    /// The text that lowering yields is the rendering of the modelled
    /// instructions and operand, and the counter advances by the number of
    /// temporaries.
    pub proof fn lower_renders_code(self, start: int)
        ensures
            self.lower(start) == (InfoView {
                context: render(self.code(start)),
                expr: self.operand(start).text(),
                id_begin: start,
                id_end: start + self.temporaries(),
            }),
        decreases self,
    {
        assert("0"@ =~= decimal(0)) by {
            reveal_strlit("0");
        }
        match self {
            Exp::Number { .. } => {},
            Exp::UnaryExp { op, exp } => {
                exp.lower_renders_code(start);
                match op {
                    UnaryOp::Pos => {},
                    UnaryOp::Neg => {
                        render_push(exp.code(start), self.code(start).last());
                    },
                    UnaryOp::Not => {
                        render_push(exp.code(start), self.code(start).last());
                    },
                }
            },
            Exp::BinaryExp { lhs, rhs, .. } => {
                let middle = start + lhs.temporaries();
                lhs.lower_renders_code(start);
                rhs.lower_renders_code(middle);
                render_concat(lhs.code(start), rhs.code(middle));
                render_push(lhs.code(start) + rhs.code(middle), self.code(start).last());
            },
        }
    }

    /// The first number that is free after lowering from `id`, or `None`
    /// where the numbers would pass `i32::MAX`.
    pub fn next_free_id(&self, id: i32) -> (next: Option<i32>)
        ensures
            next == if id + self.temporaries() <= i32::MAX {
                Some((id + self.temporaries()) as i32)
            } else {
                None
            },
        decreases self,
    {
        match self {
            Exp::Number { .. } => Some(id),
            Exp::UnaryExp { op, exp } => {
                let inner = exp.next_free_id(id);
                match op {
                    UnaryOp::Pos => inner,
                    _ => following(inner),
                }
            },
            Exp::BinaryExp { lhs, rhs, .. } => {
                match lhs.next_free_id(id) {
                    Some(middle) => following(rhs.next_free_id(middle)),
                    None => None,
                }
            },
        }
    }

    /// Lowers the expression, numbering its temporaries from `id`.
    ///
    /// The temporaries must fit: `id` and the numbers handed out after it
    /// are `i32`. [`Exp::next_free_id`] tells whether they do.
    pub fn dump(&self, id: i32) -> (info: Info)
        requires
            0 <= id,
            id + self.temporaries() <= i32::MAX,
        ensures
            info@ == self.lower(id as int),
            info.context@ == render(self.code(id as int)),
            info.expr@ == self.operand(id as int).text(),
            info.id_begin == id,
            info.id_end == id + self.temporaries(),
            info.id_end >= id,
            self matches Exp::Number { num } ==> {
                &&& info.context@ == Seq::<char>::empty()
                &&& info.expr@ == decimal(num as int)
                &&& info.id_end == id
            },
        decreases self,
    {
        proof {
            self.lower_renders_code(id as int);
        }
        match self {
            Exp::Number { num } => Info {
                context: String::new(),
                expr: decimal_string(*num),
                id_begin: id,
                id_end: id,
            },
            Exp::UnaryExp { op, exp } => {
                let info = exp.dump(id);
                match op {
                    UnaryOp::Pos => info,
                    UnaryOp::Not => {
                        let mut context = info.context;
                        append_instruction(
                            &mut context,
                            info.id_end,
                            "eq",
                            info.expr.as_str(),
                            "0",
                        );
                        Info {
                            context,
                            expr: temporary_string(info.id_end),
                            id_begin: info.id_begin,
                            id_end: info.id_end + 1,
                        }
                    },
                    UnaryOp::Neg => {
                        let mut context = info.context;
                        append_instruction(
                            &mut context,
                            info.id_end,
                            "sub",
                            "0",
                            info.expr.as_str(),
                        );
                        Info {
                            context,
                            expr: temporary_string(info.id_end),
                            id_begin: info.id_begin,
                            id_end: info.id_end + 1,
                        }
                    },
                }
            },
            Exp::BinaryExp { lhs, op, rhs } => {
                let lhs_info = lhs.dump(id);
                let rhs_info = rhs.dump(lhs_info.id_end);
                let mut context = lhs_info.context;
                context.append(rhs_info.context.as_str());
                append_instruction(
                    &mut context,
                    rhs_info.id_end,
                    op.mnemonic_str(),
                    lhs_info.expr.as_str(),
                    rhs_info.expr.as_str(),
                );
                Info {
                    context,
                    expr: temporary_string(rhs_info.id_end),
                    id_begin: lhs_info.id_begin,
                    id_end: rhs_info.id_end + 1,
                }
            },
        }
    }
}

impl Stmt {
    /// Whether the temporaries of the returned expression, numbered from
    /// zero, stay within `i32`.
    pub open spec fn numberable(self) -> bool {
        self.exp.temporaries() <= i32::MAX
    }

    /// The statement's lines: the instructions of the returned expression,
    /// numbered from zero, then the return of its value.
    pub open spec fn text(self) -> Seq<char> {
        let info = self.exp.lower(0);
        info.context + "  ret "@ + info.expr + "\n"@
    }

    /// Lowers the returned expression, numbering from zero, and renders the
    /// statement.
    pub fn dump(&self) -> (s: String)
        requires
            self.numberable(),
        ensures
            s@ == self.text(),
    {
        let info = self.exp.dump(0);
        let mut s = info.context;
        s.append("  ret ");
        s.append(info.expr.as_str());
        s.append("\n");
        s
    }
}

impl Block {
    /// Whether the block's statement is numberable.
    pub open spec fn numberable(self) -> bool {
        self.stmt.numberable()
    }

    /// The entry label on a line of its own, then the statement's lines.
    pub open spec fn text(self) -> Seq<char> {
        "%entry:\n"@ + self.stmt.text()
    }

    /// Renders the block.
    pub fn dump(&self) -> (s: String)
        requires
            self.numberable(),
        ensures
            s@ == self.text(),
    {
        let mut s = String::from_str("%entry:\n");
        s.append(self.stmt.dump().as_str());
        s
    }
}

impl FuncDef {
    /// Whether the function's body is numberable.
    pub open spec fn numberable(self) -> bool {
        self.block.numberable()
    }

    /// The function's header, its block in braces, and a final line break.
    pub open spec fn text(self) -> Seq<char> {
        "fun @"@ + self.ident@ + "(): "@ + self.func_type.mnemonic() + " {\n"@ + self.block.text()
            + "}\n"@
    }

    /// Renders the function.
    pub fn dump(&self) -> (s: String)
        requires
            self.numberable(),
        ensures
            s@ == self.text(),
    {
        let mut s = String::from_str("fun @");
        s.append(self.ident.as_str());
        s.append("(): ");
        s.append(self.func_type.dump().as_str());
        s.append(" {\n");
        s.append(self.block.dump().as_str());
        s.append("}\n");
        s
    }
}

impl CompUnit {
    /// Whether the unit's function is numberable.
    pub open spec fn numberable(self) -> bool {
        self.func_def.numberable()
    }

    /// The text of the unit's one function.
    pub open spec fn text(self) -> Seq<char> {
        self.func_def.text()
    }

    /// Renders the unit: the whole text of the intermediate representation.
    pub fn dump(&self) -> (s: String)
        requires
            self.numberable(),
        ensures
            s@ == self.text(),
    {
        self.func_def.dump()
    }

    /// Renders the unit where it is numberable, and gives `None` where it is
    /// not.
    pub fn try_dump(&self) -> (text: Option<String>)
        ensures
            text is Some <==> self.numberable(),
            text matches Some(s) ==> s@ == self.text(),
    {
        if self.func_def.block.stmt.exp.next_free_id(0).is_some() {
            Some(self.dump())
        } else {
            None
        }
    }
}

fn following(id: Option<i32>) -> (next: Option<i32>)
    ensures
        next == match id {
            Some(n) if n < i32::MAX => Some((n + 1) as i32),
            _ => None,
        },
{
    match id {
        Some(n) => if n < i32::MAX {
            Some(n + 1)
        } else {
            None
        },
        None => None,
    }
}

} // verus!
