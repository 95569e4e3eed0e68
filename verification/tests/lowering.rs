use sysy_ir::ast::{BinaryOp, Block, CompUnit, Exp, FuncDef, FuncType, Info, Stmt, UnaryOp};

fn num(n: i32) -> Box<Exp> {
    Box::new(Exp::Number { num: n })
}

fn unary(op: UnaryOp, exp: Box<Exp>) -> Box<Exp> {
    Box::new(Exp::UnaryExp { op, exp })
}

fn binary(lhs: Box<Exp>, op: BinaryOp, rhs: Box<Exp>) -> Box<Exp> {
    Box::new(Exp::BinaryExp { lhs, op, rhs })
}

fn unit(name: &str, exp: Box<Exp>) -> CompUnit {
    CompUnit {
        func_def: FuncDef {
            func_type: FuncType::Int,
            ident: name.to_string(),
            block: Block { stmt: Stmt { exp } },
        },
    }
}

fn fields(info: &Info) -> (&str, &str, i32, i32) {
    (info.context.as_str(), info.expr.as_str(), info.id_begin, info.id_end)
}

#[test]
fn literal_emits_nothing_and_keeps_the_counter() {
    for (n, k) in [(0, 0), (7, 3), (-7, 3), (123456, 99), (i32::MAX, i32::MAX)] {
        let info = Exp::Number { num: n }.dump(k);
        assert_eq!(fields(&info), ("", n.to_string().as_str(), k, k));
    }
}

#[test]
fn literal_of_the_least_integer() {
    let info = Exp::Number { num: i32::MIN }.dump(0);
    assert_eq!(fields(&info), ("", "-2147483648", 0, 0));
}

#[test]
fn unary_plus_is_elided() {
    let inner = || binary(num(1), BinaryOp::Sub, unary(UnaryOp::Neg, num(2)));
    for k in [0, 5, 1000] {
        let plain = inner().dump(k);
        let wrapped = unary(UnaryOp::Pos, inner()).dump(k);
        assert_eq!(fields(&wrapped), fields(&plain));
        assert_eq!(wrapped.context, format!("  %{} = sub 0, 2\n  %{} = sub 1, %{}\n", k, k + 1, k));
        assert_eq!(wrapped.id_end, k + 2);
    }
    let info = unary(UnaryOp::Pos, unary(UnaryOp::Pos, num(9))).dump(4);
    assert_eq!(fields(&info), ("", "9", 4, 4));
}

#[test]
fn product_binds_before_sum() {
    // 2 + 3 * 4
    let exp = binary(num(2), BinaryOp::Add, binary(num(3), BinaryOp::Mul, num(4)));
    let info = exp.dump(0);
    assert_eq!(info.context, "  %0 = mul 3, 4\n  %1 = add 2, %0\n");
    assert_eq!(info.expr, "%1");
    assert_eq!(info.id_begin, 0);
    assert_eq!(info.id_end, 2);
}

#[test]
fn negated_difference() {
    // -(1 - 2)
    let exp = unary(UnaryOp::Neg, binary(num(1), BinaryOp::Sub, num(2)));
    let info = exp.dump(0);
    assert_eq!(info.context, "  %0 = sub 1, 2\n  %1 = sub 0, %0\n");
    assert_eq!(info.expr, "%1");
    assert_eq!(info.id_end, 2);
}

#[test]
fn logical_not_of_zero() {
    // !0
    let info = unary(UnaryOp::Not, num(0)).dump(0);
    assert_eq!(info.context, "  %0 = eq 0, 0\n");
    assert_eq!(info.expr, "%0");
    assert_eq!(info.id_end, 1);
}

#[test]
fn whole_program_returning_a_sum() {
    // int main() { return 1 + 2; }
    let program = unit("main", binary(num(1), BinaryOp::Add, num(2)));
    assert_eq!(program.dump(), "fun @main(): i32 {\n%entry:\n  %0 = add 1, 2\n  ret %0\n}\n");
}

#[test]
fn whole_program_returning_a_literal() {
    let program = unit("f", num(-5));
    assert_eq!(program.dump(), "fun @f(): i32 {\n%entry:\n  ret -5\n}\n");
    assert_eq!(program.func_def.dump(), "fun @f(): i32 {\n%entry:\n  ret -5\n}\n");
    assert_eq!(program.func_def.block.dump(), "%entry:\n  ret -5\n");
    assert_eq!(program.func_def.block.stmt.dump(), "  ret -5\n");
}

#[test]
fn statement_numbers_from_zero() {
    let stmt = Stmt { exp: unary(UnaryOp::Not, unary(UnaryOp::Neg, num(3))) };
    assert_eq!(stmt.dump(), "  %0 = sub 0, 3\n  %1 = eq %0, 0\n  ret %1\n");
}

#[test]
fn mnemonics() {
    assert_eq!(BinaryOp::Add.dump(), "add");
    assert_eq!(BinaryOp::Sub.dump(), "sub");
    assert_eq!(BinaryOp::Mul.dump(), "mul");
    assert_eq!(BinaryOp::Div.dump(), "sdiv");
    assert_eq!(BinaryOp::Mod.dump(), "srem");
    assert_eq!(FuncType::Int.dump(), "i32");
}

#[test]
fn each_binary_operator_in_an_instruction() {
    let cases = [
        (BinaryOp::Add, "  %0 = add 8, -3\n"),
        (BinaryOp::Sub, "  %0 = sub 8, -3\n"),
        (BinaryOp::Mul, "  %0 = mul 8, -3\n"),
        (BinaryOp::Div, "  %0 = sdiv 8, -3\n"),
        (BinaryOp::Mod, "  %0 = srem 8, -3\n"),
    ];
    for (op, line) in cases {
        let info = binary(num(8), op, num(-3)).dump(0);
        assert_eq!(fields(&info), (line, "%0", 0, 1));
    }
}

#[test]
fn right_operand_continues_where_the_left_ended() {
    // (1 + 2) * (3 - 4), numbered from 10
    let exp = binary(
        binary(num(1), BinaryOp::Add, num(2)),
        BinaryOp::Mul,
        binary(num(3), BinaryOp::Sub, num(4)),
    );
    let info = exp.dump(10);
    assert_eq!(
        info.context,
        "  %10 = add 1, 2\n  %11 = sub 3, 4\n  %12 = mul %10, %11\n"
    );
    assert_eq!(info.expr, "%12");
    assert_eq!(info.id_begin, 10);
    assert_eq!(info.id_end, 13);
}

#[test]
fn counter_never_moves_backward() {
    let exps = [
        num(1),
        unary(UnaryOp::Pos, num(1)),
        unary(UnaryOp::Neg, num(1)),
        binary(unary(UnaryOp::Not, num(1)), BinaryOp::Mod, unary(UnaryOp::Pos, num(2))),
    ];
    let ends = [7, 7, 8, 9];
    for (exp, end) in exps.iter().zip(ends) {
        let info = exp.dump(7);
        assert!(info.id_end >= 7);
        assert_eq!(info.id_end, end);
        assert_eq!(exp.next_free_id(7), Some(end));
    }
}

#[test]
fn numbering_up_to_the_largest_id() {
    let exp = unary(UnaryOp::Neg, num(1));
    assert_eq!(exp.next_free_id(i32::MAX - 1), Some(i32::MAX));
    let info = exp.dump(i32::MAX - 1);
    assert_eq!(info.context, "  %2147483646 = sub 0, 1\n");
    assert_eq!(info.expr, "%2147483646");
    assert_eq!(info.id_end, i32::MAX);
}

#[test]
fn numbering_past_the_largest_id_is_reported() {
    let exp = unary(UnaryOp::Neg, num(1));
    assert_eq!(exp.next_free_id(i32::MAX), None);
    let sum = binary(unary(UnaryOp::Neg, num(1)), BinaryOp::Add, num(2));
    assert_eq!(sum.next_free_id(i32::MAX - 1), None);
    assert_eq!(sum.next_free_id(i32::MAX - 2), Some(i32::MAX));
    assert_eq!(num(3).next_free_id(i32::MAX), Some(i32::MAX));
}

fn temporaries_in(text: &str) -> Vec<i32> {
    let mut found = Vec::new();
    for line in text.lines() {
        for word in line.split(|c: char| c == ' ' || c == ',') {
            if let Some(digits) = word.strip_prefix('%') {
                found.push(digits.parse().unwrap());
            }
        }
    }
    found
}

#[test]
fn operands_of_a_binary_operation_share_no_temporary() {
    // (-(1 + 2) * !3) - (4 % -5), numbered from 20
    let left = || {
        binary(
            unary(UnaryOp::Neg, binary(num(1), BinaryOp::Add, num(2))),
            BinaryOp::Mul,
            unary(UnaryOp::Not, num(3)),
        )
    };
    let right = || binary(num(4), BinaryOp::Mod, unary(UnaryOp::Neg, num(5)));
    let whole = binary(left(), BinaryOp::Sub, right()).dump(20);
    let lhs = left().dump(20);
    let rhs = right().dump(lhs.id_end);

    assert_eq!(
        lhs.context,
        "  %20 = add 1, 2\n  %21 = sub 0, %20\n  %22 = eq 3, 0\n  %23 = mul %21, %22\n"
    );
    assert_eq!(rhs.context, "  %24 = sub 0, 5\n  %25 = srem 4, %24\n");
    assert_eq!(
        whole.context,
        format!("{}{}  %26 = sub %23, %25\n", lhs.context, rhs.context)
    );
    assert_eq!(whole.expr, "%26");
    assert_eq!((whole.id_begin, whole.id_end), (20, 27));

    let in_lhs = temporaries_in(&lhs.context);
    let in_rhs = temporaries_in(&rhs.context);
    assert_eq!(in_lhs, vec![20, 21, 20, 22, 23, 21, 22]);
    assert_eq!(in_rhs, vec![24, 25, 24]);
    for id in &in_lhs {
        assert!(!in_rhs.contains(id));
    }
}

#[test]
fn every_temporary_is_defined_once_and_before_it_is_read() {
    let exp = binary(
        binary(unary(UnaryOp::Not, num(1)), BinaryOp::Div, unary(UnaryOp::Pos, num(2))),
        BinaryOp::Add,
        unary(UnaryOp::Neg, binary(num(3), BinaryOp::Mul, unary(UnaryOp::Neg, num(4)))),
    );
    let info = exp.dump(0);
    let mut defined = Vec::new();
    for line in info.context.lines() {
        let ids = temporaries_in(line);
        let (target, read) = ids.split_first().unwrap();
        for id in read {
            assert!(defined.contains(id));
        }
        assert!(!defined.contains(target));
        defined.push(*target);
    }
    assert_eq!(defined, vec![0, 1, 2, 3, 4, 5]);
    assert_eq!(info.id_end, 6);
    assert_eq!(info.expr, "%5");
}

#[test]
fn nested_unary_operators() {
    // -!-+7
    let exp = unary(
        UnaryOp::Neg,
        unary(UnaryOp::Not, unary(UnaryOp::Neg, unary(UnaryOp::Pos, num(7)))),
    );
    let info = exp.dump(0);
    assert_eq!(
        info.context,
        "  %0 = sub 0, 7\n  %1 = eq %0, 0\n  %2 = sub 0, %1\n"
    );
    assert_eq!(info.expr, "%2");
    assert_eq!(info.id_end, 3);
}

#[test]
fn left_leaning_chain() {
    // 1 - 2 - 3 - 4
    let exp = binary(
        binary(binary(num(1), BinaryOp::Sub, num(2)), BinaryOp::Sub, num(3)),
        BinaryOp::Sub,
        num(4),
    );
    let info = exp.dump(0);
    assert_eq!(
        info.context,
        "  %0 = sub 1, 2\n  %1 = sub %0, 3\n  %2 = sub %1, 4\n"
    );
    assert_eq!(info.expr, "%2");
}

#[test]
fn deep_expression() {
    let mut exp = num(0);
    for _ in 0..2000 {
        exp = unary(UnaryOp::Neg, exp);
    }
    assert_eq!(exp.next_free_id(0), Some(2000));
    let info = exp.dump(0);
    assert_eq!(info.id_end, 2000);
    assert_eq!(info.expr, "%1999");
    assert_eq!(info.context.lines().count(), 2000);
    assert_eq!(info.context.lines().last(), Some("  %1999 = sub 0, %1998"));
}

#[test]
fn function_name_is_copied_into_the_header() {
    let program = unit("compute_1", unary(UnaryOp::Pos, num(0)));
    assert_eq!(
        program.dump(),
        "fun @compute_1(): i32 {\n%entry:\n  ret 0\n}\n"
    );
}

#[test]
fn syntax_tree_can_be_printed() {
    let program = unit("main", unary(UnaryOp::Neg, num(6)));
    assert_eq!(
        format!("{:?}", program),
        "CompUnit { func_def: FuncDef { func_type: Int, ident: \"main\", block: Block { stmt: \
         Stmt { exp: UnaryExp { op: Neg, exp: Number { num: 6 } } } } } }"
    );
    let info = Exp::Number { num: 6 }.dump(2);
    assert_eq!(
        format!("{:?}", info),
        "Info { context: \"\", expr: \"6\", id_begin: 2, id_end: 2 }"
    );
    assert_eq!(format!("{:?}", BinaryOp::Mod), "Mod");
}

#[test]
fn checked_rendering_of_a_whole_program() {
    let program = unit("main", binary(num(1), BinaryOp::Add, num(2)));
    assert_eq!(
        program.try_dump().as_deref(),
        Some("fun @main(): i32 {\n%entry:\n  %0 = add 1, 2\n  ret %0\n}\n")
    );
    let literal = unit("zero", num(0));
    assert_eq!(literal.try_dump(), Some(literal.dump()));
}
