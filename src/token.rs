use vstd::prelude::*;
use crate::error::decimal_text;
use crate::error::decimal;
use crate::object::{renders, value_text, Object, Value};

verus! {

/// The kinds of token the language has.
#[derive(Debug, Clone, Copy, PartialEq, Eq, Structural)]
pub enum TokenType {
    Number,
    Identifier,
    Let,
    If,
    Else,
    While,
    Nil,
    True,
    False,
    String,
    Print,
    OpenParen,
    CloseParen,
    OpenCurly,
    CloseCurly,
    Plus,
    Minus,
    Multiplication,
    Division,
    Modulo,
    Comma,
    Semicolon,
    Equal,
    EqualEqual,
    Bang,
    BangEqual,
    Greater,
    GreaterEqual,
    Less,
    LessEqual,
    BitwiseAnd,
    And,
    BitwiseOr,
    Or,
    EOF,
}

/// A lexical unit: its kind, the source text it came from, the literal value
/// it stands for (`Nil` for non-literals) and the line it is on.
#[derive(Debug, Clone)]
pub struct Token {
    pub ttype: TokenType,
    pub lexeme: String,
    pub literal: Object,
    pub line: usize,
}

/// The mathematical value of a [`Token`].
pub struct TokenModel {
    pub ttype: TokenType,
    pub lexeme: Seq<char>,
    pub literal: Value,
    pub line: nat,
}

impl View for Token {
    type V = TokenModel;

    open spec fn view(&self) -> TokenModel {
        TokenModel {
            ttype: self.ttype,
            lexeme: self.lexeme@,
            literal: self.literal@,
            line: self.line as nat,
        }
    }
}

/// The models of a sequence of tokens.
pub open spec fn token_models(ts: Seq<Token>) -> Seq<TokenModel> {
    ts.map_values(|t: Token| t@)
}

/// The name of a token kind.
pub open spec fn kind_text(t: TokenType) -> Seq<char> {
    match t {
            TokenType::Number => "Number"@,
            TokenType::Identifier => "Identifier"@,
            TokenType::Let => "Let"@,
            TokenType::If => "If"@,
            TokenType::Else => "Else"@,
            TokenType::While => "While"@,
            TokenType::Nil => "Nil"@,
            TokenType::True => "True"@,
            TokenType::False => "False"@,
            TokenType::String => "String"@,
            TokenType::Print => "Print"@,
            TokenType::OpenParen => "OpenParen"@,
            TokenType::CloseParen => "CloseParen"@,
            TokenType::OpenCurly => "OpenCurly"@,
            TokenType::CloseCurly => "CloseCurly"@,
            TokenType::Plus => "Plus"@,
            TokenType::Minus => "Minus"@,
            TokenType::Multiplication => "Multiplication"@,
            TokenType::Division => "Division"@,
            TokenType::Modulo => "Modulo"@,
            TokenType::Comma => "Comma"@,
            TokenType::Semicolon => "Semicolon"@,
            TokenType::Equal => "Equal"@,
            TokenType::EqualEqual => "EqualEqual"@,
            TokenType::Bang => "Bang"@,
            TokenType::BangEqual => "BangEqual"@,
            TokenType::Greater => "Greater"@,
            TokenType::GreaterEqual => "GreaterEqual"@,
            TokenType::Less => "Less"@,
            TokenType::LessEqual => "LessEqual"@,
            TokenType::BitwiseAnd => "BitwiseAnd"@,
            TokenType::And => "And"@,
            TokenType::BitwiseOr => "BitwiseOr"@,
            TokenType::Or => "Or"@,
            TokenType::EOF => "EOF"@,
    }
}

impl TokenType {
    /// The name of this kind, as diagnostics write it.
    pub fn name(&self) -> (r: &'static str)
        ensures
            r@ == kind_text(*self),
    {
        match self {
            TokenType::Number => "Number",
            TokenType::Identifier => "Identifier",
            TokenType::Let => "Let",
            TokenType::If => "If",
            TokenType::Else => "Else",
            TokenType::While => "While",
            TokenType::Nil => "Nil",
            TokenType::True => "True",
            TokenType::False => "False",
            TokenType::String => "String",
            TokenType::Print => "Print",
            TokenType::OpenParen => "OpenParen",
            TokenType::CloseParen => "CloseParen",
            TokenType::OpenCurly => "OpenCurly",
            TokenType::CloseCurly => "CloseCurly",
            TokenType::Plus => "Plus",
            TokenType::Minus => "Minus",
            TokenType::Multiplication => "Multiplication",
            TokenType::Division => "Division",
            TokenType::Modulo => "Modulo",
            TokenType::Comma => "Comma",
            TokenType::Semicolon => "Semicolon",
            TokenType::Equal => "Equal",
            TokenType::EqualEqual => "EqualEqual",
            TokenType::Bang => "Bang",
            TokenType::BangEqual => "BangEqual",
            TokenType::Greater => "Greater",
            TokenType::GreaterEqual => "GreaterEqual",
            TokenType::Less => "Less",
            TokenType::LessEqual => "LessEqual",
            TokenType::BitwiseAnd => "BitwiseAnd",
            TokenType::And => "And",
            TokenType::BitwiseOr => "BitwiseOr",
            TokenType::Or => "Or",
            TokenType::EOF => "EOF",
        }
    }
}

/// How a token is described in diagnostics.
pub open spec fn token_text<R: Fn(u64) -> String>(show: R, t: TokenModel) -> Seq<char> {
    "Token '"@ + t.lexeme + "' of type '"@ + kind_text(t.ttype) + "' (Object: "@ + value_text(
        show,
        t.literal,
    ) + ") in line "@ + decimal(t.line)
}

impl Token {
    pub fn new(ttype: TokenType, lexeme: &str, literal: Object, line: usize) -> (r: Self)
        ensures
            r@ == (TokenModel { ttype, lexeme: lexeme@, literal: literal@, line: line as nat }),
    {
        Token { ttype, lexeme: String::from_str(lexeme), literal, line }
    }

    /// A one-line description of the token; see [`token_text`].
    pub fn describe<R: Fn(u64) -> String>(&self, show: &R) -> (r: String)
        requires
            renders(*show),
        ensures
            r@ == token_text(*show, self@),
    {
        let s = String::from_str("Token '").concat(self.lexeme.as_str()).concat("' of type '");
        let s = s.concat(self.ttype.name()).concat("' (Object: ");
        let s = s.concat(self.literal.text(show).as_str()).concat(") in line ");
        s.concat(decimal_text(self.line).as_str())
    }

    /// A copy with the same model.
    pub fn duplicate(&self) -> (r: Token)
        ensures
            r@ == self@,
    {
        Token {
            ttype: self.ttype,
            lexeme: self.lexeme.clone(),
            literal: self.literal.duplicate(),
            line: self.line,
        }
    }
}

} // verus!
