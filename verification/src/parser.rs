//! Syntactic data model: the typed expression tree that the (external)
//! parser/type-checker produces and that the compiler walks. The parser
//! itself is an external collaborator; it guarantees that every tree handed
//! to later stages without a preceding error is well formed (see
//! [`well_formed`]).

use vstd::prelude::*;
use crate::lexer::{Token, TokenType};
use crate::log::Log;

verus! {

/// The static type of an expression. `Unit` denotes "no value" and is the
/// type of statements.
#[derive(Clone, Copy, PartialEq, Eq, Structural, Debug)]
pub enum Type {
    Int,
    Bool,
    Unit,
}

/// A node of the typed syntax tree. Every value-bearing variant carries the
/// static type resolved for it by the type-checker, so a typed tree can only
/// be formed once type-checking has succeeded.
pub enum Expression {
    /// An integer or boolean literal.
    Literal { token: Token, expr_type: Type },
    /// A prefix operator applied to one operand.
    Unary { op: Token, expr: Box<Expression>, expr_type: Type },
    /// An infix operator applied to two operands.
    Binary { left: Box<Expression>, op: Token, right: Box<Expression>, expr_type: Type },
    /// A parenthesized expression; grouping changes nothing in the emitted code.
    Grouping { expr: Box<Expression>, expr_type: Type },
    /// An expression-statement: the inner expression's value, if any, is discarded.
    Statement { expr: Box<Expression> },
    /// An ordered sequence of statements forming a block or program.
    ExpressionList { list: Vec<Expression> },
    /// The empty expression.
    Unit,
}

/// The static type of an expression: the cached type of a value-bearing
/// node, `Unit` for a statement or the empty expression, and the type of the
/// final member for a statement list (`Unit` when the list is empty).
pub open spec fn spec_type_of(e: Expression) -> Type
    decreases e,
{
    match e {
        Expression::Literal { expr_type, .. } => expr_type,
        Expression::Unary { expr_type, .. } => expr_type,
        Expression::Binary { expr_type, .. } => expr_type,
        Expression::Grouping { expr_type, .. } => expr_type,
        Expression::Statement { .. } => Type::Unit,
        Expression::ExpressionList { list } => if list.len() == 0 {
            Type::Unit
        } else {
            spec_type_of(list@.last())
        },
        Expression::Unit => Type::Unit,
    }
}

/// Token kinds that may appear as a literal.
pub open spec fn literal_token(t: TokenType) -> bool {
    t matches TokenType::IntLiteral(_) || t is True || t is False
}

/// Token kinds that may head a unary expression.
pub open spec fn unary_op_token(t: TokenType) -> bool {
    t is Minus || t is Tilde || t is ExclamationMark
}

/// Token kinds that may head a binary expression.
pub open spec fn binary_op_token(t: TokenType) -> bool {
    ||| t is Plus
    ||| t is Minus
    ||| t is Star
    ||| t is Slash
    ||| t is Percent
    ||| t is Less
    ||| t is LessEqual
    ||| t is Greater
    ||| t is GreaterEqual
    ||| t is Ampersand
    ||| t is Caret
    ||| t is Bar
    ||| t is LeftShift
    ||| t is RightShift
    ||| t is Equality
    ||| t is Inequality
}

/// The shapes the parser/type-checker guarantees for every tree it hands on
/// without a preceding error: literal nodes hold literal tokens, operator
/// nodes hold supported operator tokens, and the operand-dependent operators
/// (`& ^ |` by result type, `== !=` by left operand type) are applied only to
/// value-typed operands.
pub open spec fn well_formed(e: Expression) -> bool
    decreases e,
{
    match e {
        Expression::Literal { token, .. } => literal_token(token.token_type),
        Expression::Unary { op, expr, .. } => unary_op_token(op.token_type) && well_formed(*expr),
        Expression::Binary { left, op, right, expr_type } => {
            &&& binary_op_token(op.token_type)
            &&& well_formed(*left)
            &&& well_formed(*right)
            &&& (op.token_type is Ampersand || op.token_type is Caret || op.token_type is Bar)
                ==> !(expr_type is Unit)
            &&& (op.token_type is Equality || op.token_type is Inequality)
                ==> !(spec_type_of(*left) is Unit)
        },
        Expression::Grouping { expr, .. } => well_formed(*expr),
        Expression::Statement { expr } => well_formed(*expr),
        Expression::ExpressionList { list } => forall|i: int|
            0 <= i < list.len() ==> well_formed(#[trigger] list[i]),
        Expression::Unit => true,
    }
}

impl Expression {
    /// The static type of this expression.
    pub fn get_type(&self) -> (t: Type)
        ensures
            t == spec_type_of(*self),
        decreases *self,
    {
        match self {
            Expression::Literal { expr_type, .. } => *expr_type,
            Expression::Unary { expr_type, .. } => *expr_type,
            Expression::Binary { expr_type, .. } => *expr_type,
            Expression::Grouping { expr_type, .. } => *expr_type,
            Expression::Statement { .. } => Type::Unit,
            Expression::ExpressionList { list } => {
                if list.len() == 0 {
                    Type::Unit
                } else {
                    list[list.len() - 1].get_type()
                }
            },
            Expression::Unit => Type::Unit,
        }
    }
}

/// What the parser/type-checker hands to the compiler: the original source
/// text, the root of the typed tree, and the diagnostics accumulated so far.
pub struct ParserOutput {
    pub file_text: String,
    pub expr: Expression,
    pub logs: Vec<Log>,
}

} // verus!
