use krust_lang::compiler::{compile, usize_to_ptr_size, CompilerOutput, OpCode};
use krust_lang::lexer::{Token, TokenType};
use krust_lang::log::{ErrorType, Log, LogType, WarningType};
use krust_lang::parser::{Expression, ParserOutput, Type};

fn tok(token_type: TokenType, line: usize, col: usize) -> Token {
    Token { token_type, line, col }
}

fn int_lit(value: i32) -> Expression {
    Expression::Literal { token: tok(TokenType::IntLiteral(value), 1, 1), expr_type: Type::Int }
}

fn bool_lit(value: bool) -> Expression {
    Expression::Literal {
        token: tok(if value { TokenType::True } else { TokenType::False }, 1, 1),
        expr_type: Type::Bool,
    }
}

fn binary(left: Expression, op: Token, right: Expression, expr_type: Type) -> Expression {
    Expression::Binary { left: Box::new(left), op, right: Box::new(right), expr_type }
}

fn run(expr: Expression, cli_args: [u8; 2]) -> CompilerOutput {
    compile(
        ParserOutput { file_text: String::new(), expr, logs: Vec::new() },
        cli_args,
    )
}

fn body_of(output: &CompilerOutput) -> &[u8] {
    &output.bytecode.as_ref().expect("expected bytecode")[..]
}

#[test]
fn opcode_table_is_stable() {
    assert_eq!(OpCode::PushInt.as_byte(), 0);
    assert_eq!(OpCode::PushByte.as_byte(), 1);
    assert_eq!(OpCode::PopInt.as_byte(), 2);
    assert_eq!(OpCode::PopByte.as_byte(), 3);
    assert_eq!(OpCode::PrintInt.as_byte(), 4);
    assert_eq!(OpCode::PrintBool.as_byte(), 5);
    assert_eq!(OpCode::MinusInt.as_byte(), 6);
    assert_eq!(OpCode::AddInt.as_byte(), 7);
    assert_eq!(OpCode::SubtractInt.as_byte(), 8);
    assert_eq!(OpCode::MultiplyInt.as_byte(), 9);
    assert_eq!(OpCode::DivideInt.as_byte(), 10);
    assert_eq!(OpCode::ModuloInt.as_byte(), 11);
    assert_eq!(OpCode::LessInt.as_byte(), 12);
    assert_eq!(OpCode::LessEqualInt.as_byte(), 13);
    assert_eq!(OpCode::GreaterInt.as_byte(), 14);
    assert_eq!(OpCode::GreaterEqualInt.as_byte(), 15);
    assert_eq!(OpCode::Not.as_byte(), 16);
    assert_eq!(OpCode::ComplementInt.as_byte(), 17);
    assert_eq!(OpCode::AndInt.as_byte(), 18);
    assert_eq!(OpCode::AndByte.as_byte(), 19);
    assert_eq!(OpCode::XorInt.as_byte(), 20);
    assert_eq!(OpCode::XorByte.as_byte(), 21);
    assert_eq!(OpCode::OrInt.as_byte(), 22);
    assert_eq!(OpCode::OrByte.as_byte(), 23);
    assert_eq!(OpCode::LeftShiftInt.as_byte(), 24);
    assert_eq!(OpCode::RightShiftInt.as_byte(), 25);
    assert_eq!(OpCode::EqualityInt.as_byte(), 26);
    assert_eq!(OpCode::EqualityByte.as_byte(), 27);
    assert_eq!(OpCode::InequalityInt.as_byte(), 28);
    assert_eq!(OpCode::InequalityByte.as_byte(), 29);
}

fn three_plus_four_times_two() -> Expression {
    binary(
        int_lit(3),
        tok(TokenType::Plus, 1, 3),
        binary(int_lit(4), tok(TokenType::Star, 1, 7), int_lit(2), Type::Int),
        Type::Int,
    )
}

#[test]
fn post_order_example() {
    let output = run(three_plus_four_times_two(), [4, 0]);
    assert_eq!(
        body_of(&output),
        &[
            4, 0, // configuration header
            0, 3, 0, 0, 0, // push-int 3
            0, 4, 0, 0, 0, // push-int 4
            0, 2, 0, 0, 0, // push-int 2
            9, // multiply
            7, // add
            4, // terminal for Int
        ]
    );
    assert!(output.logs.is_empty());
}

#[test]
fn identical_inputs_give_identical_buffers() {
    let first = run(three_plus_four_times_two(), [4, 1]);
    let second = run(three_plus_four_times_two(), [4, 1]);
    assert_eq!(first.bytecode, second.bytecode);
    assert_eq!(first.bytecode.as_ref().unwrap()[1], 1);
}

#[test]
fn divide_embeds_operator_position() {
    // 10 / 0 compiles: the compiler does not evaluate constants, and
    // division by zero is a runtime fault for the virtual machine.
    let output = run(
        binary(int_lit(10), tok(TokenType::Slash, 2, 5), int_lit(0), Type::Int),
        [4, 0],
    );
    assert_eq!(
        body_of(&output),
        &[
            4, 0, //
            0, 10, 0, 0, 0, //
            0, 0, 0, 0, 0, //
            10, // divide
            2, 0, 0, 0, // line of '/' in 4 little-endian bytes
            5, 0, 0, 0, // column of '/' in 4 little-endian bytes
            4, // terminal for Int
        ]
    );
    assert!(output.logs.is_empty());
}

#[test]
fn modulo_embeds_operator_position_at_width_two() {
    let output = run(
        binary(int_lit(7), tok(TokenType::Percent, 300, 260), int_lit(3), Type::Int),
        [2, 0],
    );
    assert_eq!(
        body_of(&output),
        &[
            2, 0, //
            0, 7, 0, 0, 0, //
            0, 3, 0, 0, 0, //
            11, // modulo
            44, 1, // line 300 in 2 little-endian bytes
            4, 1, // column 260 in 2 little-endian bytes
            4,
        ]
    );
}

#[test]
fn equality_opcode_follows_left_operand_type() {
    let ints = run(
        binary(int_lit(1), tok(TokenType::Equality, 1, 3), int_lit(2), Type::Bool),
        [4, 0],
    );
    let bools = run(
        binary(bool_lit(true), tok(TokenType::Equality, 1, 6), bool_lit(false), Type::Bool),
        [4, 0],
    );
    let int_body = body_of(&ints);
    let bool_body = body_of(&bools);
    // `1 == 2` and `true == false` select different opcodes from each other.
    assert_eq!(int_body[int_body.len() - 2], 26);
    assert_eq!(bool_body[bool_body.len() - 2], 27);
}

#[test]
fn inequality_opcode_follows_left_operand_type() {
    let ints = run(
        binary(int_lit(1), tok(TokenType::Inequality, 1, 3), int_lit(2), Type::Bool),
        [4, 0],
    );
    let bools = run(
        binary(bool_lit(true), tok(TokenType::Inequality, 1, 6), bool_lit(false), Type::Bool),
        [4, 0],
    );
    assert_eq!(body_of(&ints)[body_of(&ints).len() - 2], 28);
    assert_eq!(body_of(&bools)[body_of(&bools).len() - 2], 29);
}

#[test]
fn bitwise_opcode_follows_result_type() {
    let ints = run(
        binary(int_lit(5), tok(TokenType::Ampersand, 1, 3), int_lit(3), Type::Int),
        [4, 0],
    );
    let bools = run(
        binary(bool_lit(true), tok(TokenType::Ampersand, 1, 6), bool_lit(false), Type::Bool),
        [4, 0],
    );
    assert_eq!(body_of(&ints)[body_of(&ints).len() - 2], 18);
    assert_eq!(body_of(&bools)[body_of(&bools).len() - 2], 19);
    let xor = run(
        binary(bool_lit(true), tok(TokenType::Caret, 1, 6), bool_lit(false), Type::Bool),
        [4, 0],
    );
    let or = run(
        binary(int_lit(1), tok(TokenType::Bar, 1, 3), int_lit(2), Type::Int),
        [4, 0],
    );
    assert_eq!(body_of(&xor)[body_of(&xor).len() - 2], 21);
    assert_eq!(body_of(&or)[body_of(&or).len() - 2], 22);
}

#[test]
fn unary_operators_follow_their_operand() {
    let negate = run(
        Expression::Unary {
            op: tok(TokenType::Minus, 1, 1),
            expr: Box::new(int_lit(7)),
            expr_type: Type::Int,
        },
        [4, 0],
    );
    assert_eq!(body_of(&negate), &[4, 0, 0, 7, 0, 0, 0, 6, 4]);
    let not = run(
        Expression::Unary {
            op: tok(TokenType::ExclamationMark, 1, 1),
            expr: Box::new(bool_lit(true)),
            expr_type: Type::Bool,
        },
        [4, 0],
    );
    assert_eq!(body_of(&not), &[4, 0, 1, 1, 16, 5]);
    let complement = run(
        Expression::Unary {
            op: tok(TokenType::Tilde, 1, 1),
            expr: Box::new(int_lit(0)),
            expr_type: Type::Int,
        },
        [4, 0],
    );
    assert_eq!(body_of(&complement), &[4, 0, 0, 0, 0, 0, 0, 17, 4]);
}

#[test]
fn negative_literal_uses_twos_complement_bytes() {
    let output = run(int_lit(-1), [4, 0]);
    assert_eq!(body_of(&output), &[4, 0, 0, 255, 255, 255, 255, 4]);
    let min = run(int_lit(i32::MIN), [4, 0]);
    assert_eq!(body_of(&min), &[4, 0, 0, 0, 0, 0, 128, 4]);
}

#[test]
fn grouping_changes_nothing() {
    let grouped = run(
        Expression::Grouping { expr: Box::new(int_lit(3)), expr_type: Type::Int },
        [4, 0],
    );
    let bare = run(int_lit(3), [4, 0]);
    assert_eq!(grouped.bytecode, bare.bytecode);
}

#[test]
fn statement_discards_by_type() {
    let int_statement = run(Expression::Statement { expr: Box::new(int_lit(3)) }, [4, 0]);
    // pop-int after the literal, and no terminal: a statement is Unit-typed.
    assert_eq!(body_of(&int_statement), &[4, 0, 0, 3, 0, 0, 0, 2]);
    let bool_statement = run(Expression::Statement { expr: Box::new(bool_lit(false)) }, [4, 0]);
    assert_eq!(body_of(&bool_statement), &[4, 0, 1, 0, 3]);
}

#[test]
fn unit_statement_list_emits_no_terminal() {
    let output = run(
        Expression::ExpressionList {
            list: vec![
                Expression::Statement { expr: Box::new(int_lit(1)) },
                Expression::Statement { expr: Box::new(bool_lit(true)) },
            ],
        },
        [4, 0],
    );
    // two statements, each ending in its typed pop, and nothing after.
    assert_eq!(body_of(&output), &[4, 0, 0, 1, 0, 0, 0, 2, 1, 1, 3]);
}

#[test]
fn statement_list_surfaces_final_value() {
    let output = run(
        Expression::ExpressionList {
            list: vec![Expression::Statement { expr: Box::new(int_lit(1)) }, bool_lit(true)],
        },
        [4, 0],
    );
    assert_eq!(body_of(&output), &[4, 0, 0, 1, 0, 0, 0, 2, 1, 1, 5]);
}

#[test]
fn empty_expression_emits_only_the_header() {
    let output = run(Expression::Unit, [4, 7]);
    assert_eq!(body_of(&output), &[4, 7]);
    let empty_list = run(Expression::ExpressionList { list: Vec::new() }, [4, 0]);
    assert_eq!(body_of(&empty_list), &[4, 0]);
}

fn int_statement() -> Expression {
    // push-int (1 byte), immediate (4 bytes), pop-int (1 byte): 6 bytes.
    Expression::Statement { expr: Box::new(int_lit(1)) }
}

#[test]
fn width_one_boundary_255_succeeds() {
    // 41 * 6 + 7 = 253 body bytes + 2 header bytes = 255 in all.
    let mut list: Vec<Expression> = (0..41).map(|_| int_statement()).collect();
    list.push(Expression::Statement {
        expr: Box::new(Expression::Unary {
            op: tok(TokenType::Minus, 1, 1),
            expr: Box::new(int_lit(1)),
            expr_type: Type::Int,
        }),
    });
    let output = run(Expression::ExpressionList { list }, [1, 0]);
    let bytes = output.bytecode.expect("255 bytes fit a one-byte target");
    assert_eq!(bytes.len(), 255);
    assert!(output.logs.is_empty());
}

#[test]
fn width_one_boundary_256_fails_with_excessive_bytecode() {
    // 41 * 6 + 2 * 4 = 254 body bytes + 2 header bytes = 256 in all.
    let mut list: Vec<Expression> = (0..41).map(|_| int_statement()).collect();
    for _ in 0..2 {
        list.push(Expression::Statement {
            expr: Box::new(Expression::Unary {
                op: tok(TokenType::ExclamationMark, 1, 1),
                expr: Box::new(bool_lit(true)),
                expr_type: Type::Bool,
            }),
        });
    }
    let output = run(Expression::ExpressionList { list }, [1, 0]);
    assert!(output.bytecode.is_none());
    assert_eq!(
        output.logs,
        vec![Log { log_type: LogType::Error(ErrorType::ExcessiveBytecode), line_and_col: None }]
    );
}

#[test]
fn host_width_target_is_never_oversized() {
    let wide = run(three_plus_four_times_two(), [8, 0]);
    assert!(wide.bytecode.is_some());
}

#[test]
fn inherited_error_skips_generation() {
    let prior = Log {
        log_type: LogType::Error(ErrorType::UnexpectedToken),
        line_and_col: Some((1, 2)),
    };
    let output = compile(
        ParserOutput {
            file_text: String::from("1 +"),
            expr: Expression::Unit,
            logs: vec![prior.clone()],
        },
        [4, 0],
    );
    assert!(output.bytecode.is_none());
    assert_eq!(output.logs, vec![prior]);
    assert_eq!(output.file_text, "1 +");
}

#[test]
fn inherited_warning_does_not_skip_generation() {
    let warning = Log {
        log_type: LogType::Warning(WarningType::CLIArgRoundedDownU16(String::from("-p"), 8)),
        line_and_col: None,
    };
    let output = compile(
        ParserOutput {
            file_text: String::from("3"),
            expr: int_lit(3),
            logs: vec![warning.clone()],
        },
        [4, 0],
    );
    assert_eq!(output.bytecode.as_deref(), Some(&[4, 0, 0, 3, 0, 0, 0, 4][..]));
    assert_eq!(output.logs, vec![warning]);
}

#[test]
fn comparison_and_shift_opcodes_follow_the_operator() {
    let cases = [
        (TokenType::Minus, 8u8),
        (TokenType::Less, 12),
        (TokenType::LessEqual, 13),
        (TokenType::Greater, 14),
        (TokenType::GreaterEqual, 15),
        (TokenType::LeftShift, 24),
        (TokenType::RightShift, 25),
    ];
    for (op, opcode) in cases {
        let result_type = match op {
            TokenType::Minus | TokenType::LeftShift | TokenType::RightShift => Type::Int,
            _ => Type::Bool,
        };
        let output = run(binary(int_lit(6), tok(op, 1, 3), int_lit(2), result_type), [4, 0]);
        let body = body_of(&output);
        assert_eq!(body[body.len() - 2], opcode, "operator {op:?}");
    }
    let xor_int = run(binary(int_lit(6), tok(TokenType::Caret, 1, 3), int_lit(2), Type::Int), [4, 0]);
    assert_eq!(body_of(&xor_int)[body_of(&xor_int).len() - 2], 20);
    let or_bool = run(
        binary(bool_lit(true), tok(TokenType::Bar, 1, 6), bool_lit(false), Type::Bool),
        [4, 0],
    );
    assert_eq!(body_of(&or_bool)[body_of(&or_bool).len() - 2], 23);
}

#[test]
fn width_zero_can_address_nothing() {
    let output = run(Expression::Unit, [0, 0]);
    assert!(output.bytecode.is_none());
    assert_eq!(
        output.logs,
        vec![Log { log_type: LogType::Error(ErrorType::ExcessiveBytecode), line_and_col: None }]
    );
}

#[test]
fn usize_to_ptr_size_cuts_and_pads() {
    assert_eq!(usize_to_ptr_size(0x1234, 1), vec![0x34]);
    assert_eq!(usize_to_ptr_size(0x1234, 2), vec![0x34, 0x12]);
    assert_eq!(usize_to_ptr_size(0x1234, 4), vec![0x34, 0x12, 0, 0]);
    assert_eq!(usize_to_ptr_size(1, 12), vec![1, 0, 0, 0, 0, 0, 0, 0, 0, 0, 0, 0]);
    assert_eq!(usize_to_ptr_size(usize::MAX, 0), Vec::<u8>::new());
}
