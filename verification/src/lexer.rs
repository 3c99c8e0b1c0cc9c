//! Lexical data model: the token types that the (external) lexer produces and
//! that the compiler consumes. Only the tokens the later stages read are
//! modelled here; the lexer itself is an external collaborator.

use vstd::prelude::*;

verus! {

/// The kind of a lexical token, together with any payload it carries.
///
/// `IntLiteral` carries the literal's value in the language's integer type;
/// `True` and `False` are the boolean keywords; the rest are operator and
/// punctuation symbols.
#[derive(Clone, Copy, PartialEq, Eq, Structural, Debug)]
pub enum TokenType {
    Plus,
    Minus,
    Star,
    Slash,
    Percent,
    Less,
    LessEqual,
    Greater,
    GreaterEqual,
    Ampersand,
    Caret,
    Bar,
    LeftShift,
    RightShift,
    Equality,
    Inequality,
    Tilde,
    ExclamationMark,
    IntLiteral(i32),
    True,
    False,
}

/// A lexical token: its kind and its 1-based source position.
#[derive(Clone, Copy, PartialEq, Eq, Structural, Debug)]
pub struct Token {
    pub token_type: TokenType,
    pub line: usize,
    pub col: usize,
}

} // verus!
