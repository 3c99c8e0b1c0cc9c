//! The module for compiling a typed syntax tree into bytecode for a
//! stack-based virtual machine.
//!
//! Code is generated in post-order: a node's operands are fully emitted
//! before the node's own instruction. The emitted buffer starts with the
//! two-byte target configuration (target word width in bytes, then the
//! output-mode byte), continues with the body, and ends with a terminal
//! instruction selected by the root's static type (omitted for `Unit`).
//! The whole emission is pinned down by the spec function [`full_bytecode`].

use vstd::prelude::*;
use vstd::arithmetic::power2::*;
use vstd::layout::unsigned_int_max_values;
use crate::lexer::{Token, TokenType};
use crate::log::{has_error, is_error, ErrorType, Log, LogType};
use crate::parser::{
    binary_op_token, literal_token, spec_type_of, unary_op_token, well_formed, Expression,
    ParserOutput, Type,
};

verus! {

/// The `OpCode` used in the bytecode. The byte each opcode is emitted as is
/// given by the explicit table [`opcode_value`]; the set is append-only, so
/// the table never renumbers an existing instruction.
#[derive(Clone, Copy, PartialEq, Eq, Structural, Debug)]
pub enum OpCode {
    // Stack operators
    PushInt,
    PushByte,
    PopInt,
    PopByte,
    PrintInt,
    PrintBool,
    // Arithmetic operators
    MinusInt,
    AddInt,
    SubtractInt,
    MultiplyInt,
    DivideInt,
    ModuloInt,
    // Comparison operators
    LessInt,
    LessEqualInt,
    GreaterInt,
    GreaterEqualInt,
    // Boolean operators
    Not,
    // Bitwise operators
    ComplementInt,
    AndInt,
    AndByte,
    XorInt,
    XorByte,
    OrInt,
    OrByte,
    // Shifts
    LeftShiftInt,
    RightShiftInt,
    // Equality operators
    EqualityInt,
    EqualityByte,
    InequalityInt,
    InequalityByte,
}

/// The stable, unique byte assigned to each opcode.
pub open spec fn opcode_value(op: OpCode) -> u8 {
    match op {
        OpCode::PushInt => 0,
        OpCode::PushByte => 1,
        OpCode::PopInt => 2,
        OpCode::PopByte => 3,
        OpCode::PrintInt => 4,
        OpCode::PrintBool => 5,
        OpCode::MinusInt => 6,
        OpCode::AddInt => 7,
        OpCode::SubtractInt => 8,
        OpCode::MultiplyInt => 9,
        OpCode::DivideInt => 10,
        OpCode::ModuloInt => 11,
        OpCode::LessInt => 12,
        OpCode::LessEqualInt => 13,
        OpCode::GreaterInt => 14,
        OpCode::GreaterEqualInt => 15,
        OpCode::Not => 16,
        OpCode::ComplementInt => 17,
        OpCode::AndInt => 18,
        OpCode::AndByte => 19,
        OpCode::XorInt => 20,
        OpCode::XorByte => 21,
        OpCode::OrInt => 22,
        OpCode::OrByte => 23,
        OpCode::LeftShiftInt => 24,
        OpCode::RightShiftInt => 25,
        OpCode::EqualityInt => 26,
        OpCode::EqualityByte => 27,
        OpCode::InequalityInt => 28,
        OpCode::InequalityByte => 29,
    }
}

impl OpCode {
    /// The byte this opcode is emitted as.
    pub fn as_byte(self) -> (b: u8)
        ensures
            b == opcode_value(self),
    {
        match self {
            OpCode::PushInt => 0,
            OpCode::PushByte => 1,
            OpCode::PopInt => 2,
            OpCode::PopByte => 3,
            OpCode::PrintInt => 4,
            OpCode::PrintBool => 5,
            OpCode::MinusInt => 6,
            OpCode::AddInt => 7,
            OpCode::SubtractInt => 8,
            OpCode::MultiplyInt => 9,
            OpCode::DivideInt => 10,
            OpCode::ModuloInt => 11,
            OpCode::LessInt => 12,
            OpCode::LessEqualInt => 13,
            OpCode::GreaterInt => 14,
            OpCode::GreaterEqualInt => 15,
            OpCode::Not => 16,
            OpCode::ComplementInt => 17,
            OpCode::AndInt => 18,
            OpCode::AndByte => 19,
            OpCode::XorInt => 20,
            OpCode::XorByte => 21,
            OpCode::OrInt => 22,
            OpCode::OrByte => 23,
            OpCode::LeftShiftInt => 24,
            OpCode::RightShiftInt => 25,
            OpCode::EqualityInt => 26,
            OpCode::EqualityByte => 27,
            OpCode::InequalityInt => 28,
            OpCode::InequalityByte => 29,
        }
    }
}

/// The little-endian encoding of `value` in exactly `n` bytes; bytes beyond
/// the value's magnitude are zero, and bits beyond the `n`-th byte are cut.
pub open spec fn le_bytes(value: nat, n: nat) -> Seq<u8>
    decreases n,
{
    if n == 0 {
        Seq::empty()
    } else {
        seq![(value % 256) as u8] + le_bytes(value / 256, (n - 1) as nat)
    }
}

pub proof fn lemma_le_bytes_len(value: nat, n: nat)
    ensures
        le_bytes(value, n).len() == n,
    decreases n,
{
    if n > 0 {
        lemma_le_bytes_len(value / 256, (n - 1) as nat);
    }
}

/// The value of an `i32` reinterpreted as its 32 unsigned bits
/// (two's complement).
pub open spec fn u32_bits_of_i32(v: i32) -> nat {
    if v >= 0 {
        v as nat
    } else {
        (v + 0x1_0000_0000) as nat
    }
}

/// The four little-endian bytes of an integer literal. The language's
/// integer width is fixed at four bytes, independent of the target word
/// width.
pub open spec fn int_literal_bytes(v: i32) -> Seq<u8> {
    le_bytes(u32_bits_of_i32(v), 4)
}

/// The opcode a unary operator token selects.
pub open spec fn unary_opcode(t: TokenType) -> OpCode {
    match t {
        TokenType::Minus => OpCode::MinusInt,
        TokenType::Tilde => OpCode::ComplementInt,
        TokenType::ExclamationMark => OpCode::Not,
        _ => arbitrary(),
    }
}

/// The opcode a binary operator token selects. For `& ^ |` the choice also
/// depends on the node's result type; for `== !=` it depends only on the
/// left operand's static type (equality's result is always boolean, but the
/// comparison's semantics follow the operand type).
pub open spec fn binary_opcode(t: TokenType, result_type: Type, left_type: Type) -> OpCode {
    match t {
        TokenType::Plus => OpCode::AddInt,
        TokenType::Minus => OpCode::SubtractInt,
        TokenType::Star => OpCode::MultiplyInt,
        TokenType::Slash => OpCode::DivideInt,
        TokenType::Percent => OpCode::ModuloInt,
        TokenType::Less => OpCode::LessInt,
        TokenType::LessEqual => OpCode::LessEqualInt,
        TokenType::Greater => OpCode::GreaterInt,
        TokenType::GreaterEqual => OpCode::GreaterEqualInt,
        TokenType::Ampersand => if result_type is Int {
            OpCode::AndInt
        } else {
            OpCode::AndByte
        },
        TokenType::Caret => if result_type is Int {
            OpCode::XorInt
        } else {
            OpCode::XorByte
        },
        TokenType::Bar => if result_type is Int {
            OpCode::OrInt
        } else {
            OpCode::OrByte
        },
        TokenType::LeftShift => OpCode::LeftShiftInt,
        TokenType::RightShift => OpCode::RightShiftInt,
        TokenType::Equality => if left_type is Int {
            OpCode::EqualityInt
        } else {
            OpCode::EqualityByte
        },
        TokenType::Inequality => if left_type is Int {
            OpCode::InequalityInt
        } else {
            OpCode::InequalityByte
        },
        _ => arbitrary(),
    }
}

/// The bytes a divide or modulo instruction carries directly after its
/// opcode: the operator token's line and column, each encoded as exactly
/// `ptr_size` little-endian bytes, so that a downstream division-by-zero
/// fault can be reported precisely without a side table. Empty for every
/// other operator.
pub open spec fn div_mod_position_bytes(op: Token, ptr_size: u8) -> Seq<u8> {
    if op.token_type is Slash || op.token_type is Percent {
        le_bytes(op.line as nat, ptr_size as nat) + le_bytes(op.col as nat, ptr_size as nat)
    } else {
        Seq::empty()
    }
}

/// The bytes a literal emits: push-int then the value's four little-endian
/// bytes, or push-byte then `1` or `0` for the boolean keywords.
pub open spec fn literal_bytes(token: Token) -> Seq<u8> {
    match token.token_type {
        TokenType::IntLiteral(v) => seq![opcode_value(OpCode::PushInt)] + int_literal_bytes(v),
        TokenType::True => seq![opcode_value(OpCode::PushByte), 1u8],
        TokenType::False => seq![opcode_value(OpCode::PushByte), 0u8],
        _ => Seq::empty(),
    }
}

/// The typed discard (pop) instruction a statement appends after its inner
/// expression's code; a `Unit`-typed inner expression needs none.
pub open spec fn discard_bytes(t: Type) -> Seq<u8> {
    match t {
        Type::Int => seq![opcode_value(OpCode::PopInt)],
        Type::Bool => seq![opcode_value(OpCode::PopByte)],
        Type::Unit => Seq::empty(),
    }
}

/// The body bytes a typed expression emits, in post-order.
pub open spec fn bytecode_spec(e: Expression, ptr_size: u8) -> Seq<u8>
    decreases e,
{
    match e {
        Expression::Literal { token, .. } => literal_bytes(token),
        Expression::Unary { op, expr, .. } => bytecode_spec(*expr, ptr_size) + seq![
            opcode_value(unary_opcode(op.token_type)),
        ],
        Expression::Binary { left, op, right, expr_type } => bytecode_spec(*left, ptr_size)
            + bytecode_spec(*right, ptr_size) + seq![
            opcode_value(binary_opcode(op.token_type, expr_type, spec_type_of(*left))),
        ] + div_mod_position_bytes(op, ptr_size),
        Expression::Grouping { expr, .. } => bytecode_spec(*expr, ptr_size),
        Expression::Statement { expr } => bytecode_spec(*expr, ptr_size) + discard_bytes(
            spec_type_of(*expr),
        ),
        Expression::ExpressionList { list } => bytecode_list_spec(list@, ptr_size),
        Expression::Unit => Seq::empty(),
    }
}

/// The concatenation, in order, of the bytes each member of a statement
/// list emits.
pub open spec fn bytecode_list_spec(l: Seq<Expression>, ptr_size: u8) -> Seq<u8>
    decreases l,
{
    if l.len() == 0 {
        Seq::empty()
    } else {
        bytecode_list_spec(l.drop_last(), ptr_size) + bytecode_spec(l.last(), ptr_size)
    }
}

/// The terminal instruction appended after the root expression's code,
/// selected by the root's static type: surface an integer or boolean
/// result, or nothing for `Unit`.
pub open spec fn terminal_bytes(t: Type) -> Seq<u8> {
    match t {
        Type::Int => seq![opcode_value(OpCode::PrintInt)],
        Type::Bool => seq![opcode_value(OpCode::PrintBool)],
        Type::Unit => Seq::empty(),
    }
}

/// The complete buffer the compiler emits for a typed tree: the two
/// configuration bytes, the body, then the terminal instruction.
pub open spec fn full_bytecode(e: Expression, cli_args: [u8; 2]) -> Seq<u8> {
    seq![cli_args[0], cli_args[1]] + bytecode_spec(e, cli_args[0]) + terminal_bytes(
        spec_type_of(e),
    )
}

/// Whether a buffer of `len` bytes cannot be addressed by a target whose
/// word width is `width` bytes: the target's width is smaller than the
/// host's and the buffer's length reaches `2^(8 * width)`.
pub open spec fn exceeds_target(len: nat, width: u8) -> bool {
    (width as nat) * 8 < usize::BITS && len >= pow2((width as nat) * 8)
}

/// The output given by the compiler.
pub struct CompilerOutput {
    pub file_text: String,
    pub bytecode: Option<Vec<u8>>,
    pub logs: Vec<Log>,
}

/// Converts a usize value to its little-endian bytes, cut or zero-padded to
/// a length of exactly `ptr_size`.
pub fn usize_to_ptr_size(value: usize, ptr_size: u8) -> (r: Vec<u8>)
    ensures
        r@ == le_bytes(value as nat, ptr_size as nat),
        r@.len() == ptr_size,
{
    let mut bytes: Vec<u8> = Vec::new();
    let mut rem: usize = value;
    let mut i: u8 = 0;
    while i < ptr_size
        invariant
            i <= ptr_size,
            bytes@.len() == i,
            le_bytes(value as nat, ptr_size as nat) == bytes@ + le_bytes(
                rem as nat,
                (ptr_size - i) as nat,
            ),
        decreases ptr_size - i,
    {
        proof {
            assert(le_bytes(rem as nat, (ptr_size - i) as nat) == seq![(rem as nat % 256) as u8]
                + le_bytes(rem as nat / 256, (ptr_size - i - 1) as nat));
            assert(bytes@ + le_bytes(rem as nat, (ptr_size - i) as nat) == (bytes@.push(
                (rem % 256) as u8,
            )) + le_bytes(rem as nat / 256, (ptr_size - i - 1) as nat));
        }
        bytes.push((rem % 256) as u8);
        rem = rem / 256;
        i = i + 1;
    }
    proof {
        assert(bytes@ + le_bytes(rem as nat, 0) == bytes@);
    }
    bytes
}

/// The 32 unsigned bits of an `i32` (two's complement).
fn i32_bits(value: i32) -> (r: u32)
    ensures
        r as nat == u32_bits_of_i32(value),
{
    if value >= 0 {
        value as u32
    } else {
        let wide: i64 = value as i64 + 0x1_0000_0000i64;
        wide as u32
    }
}

// Handles literal expressions/tokens.
fn handle_literal(bytecode: &mut Vec<u8>, token: Token)
    requires
        literal_token(token.token_type),
    ensures
        final(bytecode)@ == old(bytecode)@ + literal_bytes(token),
{
    match token.token_type {
        TokenType::IntLiteral(value) => {
            bytecode.push(OpCode::PushInt.as_byte());
            let mut immediate = usize_to_ptr_size(i32_bits(value) as usize, 4);
            bytecode.append(&mut immediate);
        },
        TokenType::True => {
            bytecode.push(OpCode::PushByte.as_byte());
            bytecode.push(1u8);
        },
        TokenType::False => {
            bytecode.push(OpCode::PushByte.as_byte());
            bytecode.push(0u8);
        },
        _ => {
            proof {
                assert(false);
            }
        },
    }
}

// Handles binary expressions: appends the operands' already-generated code,
// then the instruction the operator selects, then, for divide and modulo,
// the operator's encoded source position.
fn handle_binary(
    bytecode: &mut Vec<u8>,
    ptr_size: u8,
    left_code: Vec<u8>,
    op: Token,
    right_code: Vec<u8>,
    expr_type: Type,
    left_type: Type,
)
    requires
        binary_op_token(op.token_type),
        (op.token_type is Ampersand || op.token_type is Caret || op.token_type is Bar)
            ==> !(expr_type is Unit),
        (op.token_type is Equality || op.token_type is Inequality) ==> !(left_type is Unit),
    ensures
        final(bytecode)@ == old(bytecode)@ + left_code@ + right_code@ + seq![
            opcode_value(binary_opcode(op.token_type, expr_type, left_type)),
        ] + div_mod_position_bytes(op, ptr_size),
{
    let mut left_code = left_code;
    let mut right_code = right_code;
    bytecode.append(&mut left_code);
    bytecode.append(&mut right_code);
    match op.token_type {
        TokenType::Plus => {
            bytecode.push(OpCode::AddInt.as_byte());
        },
        TokenType::Minus => {
            bytecode.push(OpCode::SubtractInt.as_byte());
        },
        TokenType::Star => {
            bytecode.push(OpCode::MultiplyInt.as_byte());
        },
        TokenType::Slash => {
            bytecode.push(OpCode::DivideInt.as_byte());
            let mut line_bytes = usize_to_ptr_size(op.line, ptr_size);
            bytecode.append(&mut line_bytes);
            let mut col_bytes = usize_to_ptr_size(op.col, ptr_size);
            bytecode.append(&mut col_bytes);
        },
        TokenType::Percent => {
            bytecode.push(OpCode::ModuloInt.as_byte());
            let mut line_bytes = usize_to_ptr_size(op.line, ptr_size);
            bytecode.append(&mut line_bytes);
            let mut col_bytes = usize_to_ptr_size(op.col, ptr_size);
            bytecode.append(&mut col_bytes);
        },
        TokenType::Less => {
            bytecode.push(OpCode::LessInt.as_byte());
        },
        TokenType::LessEqual => {
            bytecode.push(OpCode::LessEqualInt.as_byte());
        },
        TokenType::Greater => {
            bytecode.push(OpCode::GreaterInt.as_byte());
        },
        TokenType::GreaterEqual => {
            bytecode.push(OpCode::GreaterEqualInt.as_byte());
        },
        TokenType::Ampersand => {
            bytecode.push(
                match expr_type {
                    Type::Int => OpCode::AndInt,
                    Type::Bool => OpCode::AndByte,
                    Type::Unit => unreached(),
                }.as_byte(),
            );
        },
        TokenType::Caret => {
            bytecode.push(
                match expr_type {
                    Type::Int => OpCode::XorInt,
                    Type::Bool => OpCode::XorByte,
                    Type::Unit => unreached(),
                }.as_byte(),
            );
        },
        TokenType::Bar => {
            bytecode.push(
                match expr_type {
                    Type::Int => OpCode::OrInt,
                    Type::Bool => OpCode::OrByte,
                    Type::Unit => unreached(),
                }.as_byte(),
            );
        },
        TokenType::LeftShift => {
            bytecode.push(OpCode::LeftShiftInt.as_byte());
        },
        TokenType::RightShift => {
            bytecode.push(OpCode::RightShiftInt.as_byte());
        },
        TokenType::Equality => {
            bytecode.push(
                match left_type {
                    Type::Int => OpCode::EqualityInt,
                    Type::Bool => OpCode::EqualityByte,
                    Type::Unit => unreached(),
                }.as_byte(),
            );
        },
        TokenType::Inequality => {
            bytecode.push(
                match left_type {
                    Type::Int => OpCode::InequalityInt,
                    Type::Bool => OpCode::InequalityByte,
                    Type::Unit => unreached(),
                }.as_byte(),
            );
        },
        _ => {
            proof {
                assert(false);
            }
        },
    }
}

fn generate_bytecode(expr: &Expression, ptr_size: u8) -> (r: Vec<u8>)
    requires
        well_formed(*expr),
    ensures
        r@ == bytecode_spec(*expr, ptr_size),
    decreases *expr,
{
    let mut bytecode: Vec<u8> = Vec::new();
    match expr {
        Expression::Binary { left, op, right, expr_type } => {
            let left_type = left.get_type();
            let left_code = generate_bytecode(left, ptr_size);
            let right_code = generate_bytecode(right, ptr_size);
            handle_binary(&mut bytecode, ptr_size, left_code, *op, right_code, *expr_type, left_type);
        },
        Expression::ExpressionList { list } => {
            let mut i: usize = 0;
            while i < list.len()
                invariant
                    i <= list.len(),
                    well_formed(*expr),
                    expr matches Expression::ExpressionList { list: l2 } && l2 == list,
                    bytecode@ == bytecode_list_spec(list@.subrange(0, i as int), ptr_size),
                decreases list.len() - i,
            {
                proof {
                    assert(decreases_to!(list@ => list@[i as int]));
                    assert(list@.subrange(0, i + 1 as int).drop_last() == list@.subrange(
                        0,
                        i as int,
                    ));
                    assert(list@.subrange(0, i + 1 as int).last() == list@[i as int]);
                }
                let mut piece = generate_bytecode(&list[i], ptr_size);
                bytecode.append(&mut piece);
                i = i + 1;
            }
            proof {
                assert(list@.subrange(0, list@.len() as int) == list@);
            }
        },
        Expression::Grouping { expr: child, .. } => {
            let mut inner = generate_bytecode(child, ptr_size);
            bytecode.append(&mut inner);
        },
        Expression::Literal { token, .. } => {
            handle_literal(&mut bytecode, *token);
        },
        Expression::Statement { expr: child } => {
            let mut inner = generate_bytecode(child, ptr_size);
            bytecode.append(&mut inner);
            match child.get_type() {
                Type::Int => {
                    bytecode.push(OpCode::PopInt.as_byte());
                },
                Type::Bool => {
                    bytecode.push(OpCode::PopByte.as_byte());
                },
                Type::Unit => {},
            }
        },
        Expression::Unary { op, expr: child, .. } => {
            let mut inner = generate_bytecode(child, ptr_size);
            bytecode.append(&mut inner);
            match op.token_type {
                TokenType::Minus => {
                    bytecode.push(OpCode::MinusInt.as_byte());
                },
                TokenType::Tilde => {
                    bytecode.push(OpCode::ComplementInt.as_byte());
                },
                TokenType::ExclamationMark => {
                    bytecode.push(OpCode::Not.as_byte());
                },
                _ => {
                    proof {
                        assert(false);
                    }
                },
            }
        },
        Expression::Unit => {},
    }
    bytecode
}

/// The smallest buffer length a target of `width` bytes cannot address:
/// `2^(8 * width)`.
fn target_address_bound(width: u8) -> (r: usize)
    requires
        (width as nat) * 8 < usize::BITS,
    ensures
        r == pow2((width as nat) * 8),
{
    proof {
        unsigned_int_max_values();
        lemma2_to64();
    }
    let mut bound: usize = 1;
    let mut i: u8 = 0;
    while i < width
        invariant
            i <= width,
            (width as nat) * 8 < usize::BITS,
            bound == pow2((i as nat) * 8),
            (usize::MAX as nat) == pow2(usize::BITS as nat) - 1,
        decreases width - i,
    {
        proof {
            lemma_pow2_adds((i as nat) * 8, 8);
            lemma2_to64();
            if (i as nat + 1) * 8 < usize::BITS as nat {
                lemma_pow2_strictly_increases((i as nat + 1) * 8, usize::BITS as nat);
            }
        }
        bound = bound * 256;
        i = i + 1;
    }
    bound
}

/// Compiles to bytecode.
///
/// If the incoming diagnostics already contain an error, generation is
/// skipped entirely: the diagnostics come back unchanged and no bytecode is
/// produced. Otherwise the full buffer is built, and either returned whole,
/// or — when the target cannot address it — discarded, with the one
/// `ExcessiveBytecode` error appended to the otherwise unchanged
/// diagnostics. The compiler never emits a partial buffer.
#[must_use]
pub fn compile(parser_output: ParserOutput, cli_args: [u8; 2]) -> (r: CompilerOutput)
    requires
        !has_error(parser_output.logs@) ==> well_formed(parser_output.expr),
    ensures
        r.file_text@ == parser_output.file_text@,
        has_error(parser_output.logs@) ==> r.bytecode is None && r.logs@ == parser_output.logs@,
        !has_error(parser_output.logs@) && exceeds_target(
            full_bytecode(parser_output.expr, cli_args).len(),
            cli_args[0],
        ) ==> r.bytecode is None && r.logs@ == parser_output.logs@.push(
            (Log { log_type: LogType::Error(ErrorType::ExcessiveBytecode), line_and_col: None }),
        ),
        !has_error(parser_output.logs@) && !exceeds_target(
            full_bytecode(parser_output.expr, cli_args).len(),
            cli_args[0],
        ) ==> (r.bytecode matches Some(b) && b@ == full_bytecode(parser_output.expr, cli_args)
            && r.logs@ == parser_output.logs@),
{
    let ParserOutput { file_text, expr, logs } = parser_output;
    let mut logs = logs;
    let mut bytecode: Option<Vec<u8>> = None;

    if !is_error(&logs) {
        let mut byte_list: Vec<u8> = Vec::new();
        byte_list.push(cli_args[0]);
        byte_list.push(cli_args[1]);
        let expr_type: Type = expr.get_type();
        let mut body = generate_bytecode(&expr, cli_args[0]);
        byte_list.append(&mut body);
        match expr_type {
            Type::Int => {
                byte_list.push(OpCode::PrintInt.as_byte());
            },
            Type::Bool => {
                byte_list.push(OpCode::PrintBool.as_byte());
            },
            Type::Unit => {},
        }
        proof {
            assert(byte_list@ == full_bytecode(expr, cli_args));
        }
        if (cli_args[0] as u32) * 8 < usize::BITS && byte_list.len() >= target_address_bound(
            cli_args[0],
        ) {
            logs.push(
                Log { log_type: LogType::Error(ErrorType::ExcessiveBytecode), line_and_col: None },
            );
        } else {
            bytecode = Some(byte_list);
        }
    }

    CompilerOutput { file_text, bytecode, logs }
}

/// Re-running the compiler on identical inputs yields a byte-identical
/// buffer: any two results of [`compile`] for the same typed tree, incoming
/// diagnostics and target configuration either both hold bytecode with the
/// same bytes, or both hold none.
pub proof fn lemma_compile_deterministic(
    po1: ParserOutput,
    po2: ParserOutput,
    cli_args: [u8; 2],
    r1: CompilerOutput,
    r2: CompilerOutput,
)
    requires
        po1.expr == po2.expr,
        po1.logs@ == po2.logs@,
        call_ensures(compile, (po1, cli_args), r1),
        call_ensures(compile, (po2, cli_args), r2),
    ensures
        r1.bytecode is Some <==> r2.bytecode is Some,
        r1.bytecode matches Some(b1) ==> (r2.bytecode matches Some(b2) && b1@ == b2@),
        r1.logs@ == r2.logs@,
{
}

/// A divide or modulo instruction is followed by exactly `2 * ptr_size`
/// bytes: the little-endian encodings of the operator token's line and
/// column, in that order.
pub proof fn lemma_div_mod_position_encoding(e: Expression, ptr_size: u8)
    requires
        e is Binary,
        e->Binary_op.token_type is Slash || e->Binary_op.token_type is Percent,
    ensures
        bytecode_spec(e, ptr_size) == bytecode_spec(*e->Binary_left, ptr_size) + bytecode_spec(
            *e->Binary_right,
            ptr_size,
        ) + seq![
            opcode_value(
                binary_opcode(
                    e->Binary_op.token_type,
                    e->Binary_expr_type,
                    spec_type_of(*e->Binary_left),
                ),
            ),
        ] + le_bytes(e->Binary_op.line as nat, ptr_size as nat) + le_bytes(
            e->Binary_op.col as nat,
            ptr_size as nat,
        ),
        le_bytes(e->Binary_op.line as nat, ptr_size as nat).len() == ptr_size,
        le_bytes(e->Binary_op.col as nat, ptr_size as nat).len() == ptr_size,
{
    lemma_le_bytes_len(e->Binary_op.line as nat, ptr_size as nat);
    lemma_le_bytes_len(e->Binary_op.col as nat, ptr_size as nat);
    assert(bytecode_spec(e, ptr_size) == bytecode_spec(*e->Binary_left, ptr_size) + bytecode_spec(
        *e->Binary_right,
        ptr_size,
    ) + seq![
        opcode_value(
            binary_opcode(
                e->Binary_op.token_type,
                e->Binary_expr_type,
                spec_type_of(*e->Binary_left),
            ),
        ),
    ] + le_bytes(e->Binary_op.line as nat, ptr_size as nat) + le_bytes(
        e->Binary_op.col as nat,
        ptr_size as nat,
    ));
}

/// Equality and inequality opcode selection depends only on the left
/// operand's static type: the node's own result type never changes the
/// chosen instruction.
pub proof fn lemma_equality_opcode_from_left_type(
    t: TokenType,
    result_type1: Type,
    result_type2: Type,
    left_type: Type,
)
    requires
        t is Equality || t is Inequality,
    ensures
        binary_opcode(t, result_type1, left_type) == binary_opcode(t, result_type2, left_type),
{
}

} // verus!
