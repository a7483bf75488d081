//! Tokens and their kinds.

use vstd::prelude::*;
use vstd::string::*;

verus! {

/// The lexical categories of the language.
#[derive(Debug, Clone, Copy, PartialEq, Eq, Structural, Hash)]
pub enum TokenKind {
    Illegal,
    EOF,
    // identifiers and literals
    Ident,
    Int,
    // operators
    Assign,
    Plus,
    Minus,
    Bang,
    Asterisk,
    Slash,
    Lt,
    Gt,
    Eq,
    NotEq,
    // delimiters
    Comma,
    SemiColon,
    LParen,
    RParen,
    LBrace,
    RBrace,
    // keywords
    Function,
    Let,
    True,
    False,
    If,
    Else,
    Return,
}

/// The display name of a token kind, as used in diagnostics.
pub open spec fn kind_name(k: TokenKind) -> Seq<char> {
    match k {
        TokenKind::Illegal => "ILLEGAL"@,
        TokenKind::EOF => "EOF"@,
        TokenKind::Ident => "IDENT"@,
        TokenKind::Int => "INT"@,
        TokenKind::Assign => "="@,
        TokenKind::Plus => "+"@,
        TokenKind::Minus => "-"@,
        TokenKind::Bang => "!"@,
        TokenKind::Asterisk => "*"@,
        TokenKind::Slash => "/"@,
        TokenKind::Lt => "<"@,
        TokenKind::Gt => ">"@,
        TokenKind::Eq => "=="@,
        TokenKind::NotEq => "!="@,
        TokenKind::Comma => ","@,
        TokenKind::SemiColon => ";"@,
        TokenKind::LParen => "("@,
        TokenKind::RParen => ")"@,
        TokenKind::LBrace => "{"@,
        TokenKind::RBrace => "}"@,
        TokenKind::Function => "FUNCTION"@,
        TokenKind::Let => "LET"@,
        TokenKind::True => "TRUE"@,
        TokenKind::False => "FALSE"@,
        TokenKind::If => "IF"@,
        TokenKind::Else => "ELSE"@,
        TokenKind::Return => "RETURN"@,
    }
}

/// The kind of a scanned word: a keyword's own kind, or `Ident` for any
/// other word.
pub open spec fn keyword_kind(w: Seq<char>) -> TokenKind {
    if w == "fn"@ {
        TokenKind::Function
    } else if w == "let"@ {
        TokenKind::Let
    } else if w == "true"@ {
        TokenKind::True
    } else if w == "false"@ {
        TokenKind::False
    } else if w == "if"@ {
        TokenKind::If
    } else if w == "else"@ {
        TokenKind::Else
    } else if w == "return"@ {
        TokenKind::Return
    } else {
        TokenKind::Ident
    }
}

/// Whether two strings hold the same characters.
fn str_eq(a: &str, b: &str) -> (r: bool)
    ensures
        r == (a@ == b@),
{
    let n = a.unicode_len();
    if n != b.unicode_len() {
        return false;
    }
    let mut i: usize = 0;
    while i < n
        invariant
            n == a@.len(),
            n == b@.len(),
            i <= n,
            a@.subrange(0, i as int) == b@.subrange(0, i as int),
        decreases n - i,
    {
        if a.get_char(i) != b.get_char(i) {
            return false;
        }
        assert(a@.subrange(0, i + 1) =~= a@.subrange(0, i as int).push(a@[i as int]));
        assert(b@.subrange(0, i + 1) =~= b@.subrange(0, i as int).push(b@[i as int]));
        i = i + 1;
    }
    assert(a@ =~= a@.subrange(0, n as int));
    assert(b@ =~= b@.subrange(0, n as int));
    true
}

impl TokenKind {
    /// Classifies a scanned word: keywords get their own kind, every other
    /// word is an identifier.
    pub fn look_up_ident(ident: &str) -> (r: TokenKind)
        ensures
            r == keyword_kind(ident@),
    {
        if str_eq(ident, "fn") {
            TokenKind::Function
        } else if str_eq(ident, "let") {
            TokenKind::Let
        } else if str_eq(ident, "true") {
            TokenKind::True
        } else if str_eq(ident, "false") {
            TokenKind::False
        } else if str_eq(ident, "if") {
            TokenKind::If
        } else if str_eq(ident, "else") {
            TokenKind::Else
        } else if str_eq(ident, "return") {
            TokenKind::Return
        } else {
            TokenKind::Ident
        }
    }

    /// The display name of this kind.
    pub fn name(&self) -> (r: &'static str)
        ensures
            r@ == kind_name(*self),
    {
        match self {
            TokenKind::Illegal => "ILLEGAL",
            TokenKind::EOF => "EOF",
            TokenKind::Ident => "IDENT",
            TokenKind::Int => "INT",
            TokenKind::Assign => "=",
            TokenKind::Plus => "+",
            TokenKind::Minus => "-",
            TokenKind::Bang => "!",
            TokenKind::Asterisk => "*",
            TokenKind::Slash => "/",
            TokenKind::Lt => "<",
            TokenKind::Gt => ">",
            TokenKind::Eq => "==",
            TokenKind::NotEq => "!=",
            TokenKind::Comma => ",",
            TokenKind::SemiColon => ";",
            TokenKind::LParen => "(",
            TokenKind::RParen => ")",
            TokenKind::LBrace => "{",
            TokenKind::RBrace => "}",
            TokenKind::Function => "FUNCTION",
            TokenKind::Let => "LET",
            TokenKind::True => "TRUE",
            TokenKind::False => "FALSE",
            TokenKind::If => "IF",
            TokenKind::Else => "ELSE",
            TokenKind::Return => "RETURN",
        }
    }
}

impl Default for TokenKind {
    fn default() -> (r: TokenKind)
        ensures
            r == TokenKind::Illegal,
    {
        TokenKind::Illegal
    }
}

/// The mathematical value of a token: its kind and the characters it was
/// scanned from.
pub struct SpecToken {
    pub kind: TokenKind,
    pub literal: Seq<char>,
}

/// A token: its kind and the source text it was scanned from.
#[derive(Debug, Clone, PartialEq, Eq)]
pub struct Token {
    pub kind: TokenKind,
    pub literal: String,
}

impl View for Token {
    type V = SpecToken;

    open spec fn view(&self) -> SpecToken {
        SpecToken { kind: self.kind, literal: self.literal@ }
    }
}

impl Token {
    /// A token of kind `kind` scanned from `literal`.
    pub fn new(kind: TokenKind, literal: &str) -> (r: Token)
        ensures
            r@ == (SpecToken { kind, literal: literal@ }),
    {
        Token { kind, literal: String::from_str(literal) }
    }

    /// A copy of this token.
    pub fn duplicate(&self) -> (r: Token)
        ensures
            r == *self,
    {
        Token { kind: self.kind, literal: self.literal.clone() }
    }
}

/// The empty `Illegal` token.
impl Default for Token {
    fn default() -> (r: Token)
        ensures
            r@ == (SpecToken { kind: TokenKind::Illegal, literal: Seq::empty() }),
    {
        Token { kind: TokenKind::Illegal, literal: String::new() }
    }
}

} // verus!
