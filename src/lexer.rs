//! The lexer: one token per call, whitespace skipped, `EOF` forever once
//! the input is used up. Its behaviour is the spec function `lex`.

use crate::token::{keyword_kind, SpecToken, Token, TokenKind};
use vstd::prelude::*;
use vstd::string::*;

verus! {

/// ASCII letters and `_` start and continue identifiers.
pub open spec fn is_letter_char(c: char) -> bool {
    ('a' <= c && c <= 'z') || ('A' <= c && c <= 'Z') || c == '_'
}

/// ASCII decimal digits form integer literals.
pub open spec fn is_digit_char(c: char) -> bool {
    '0' <= c && c <= '9'
}

/// ASCII whitespace: space, tab, line feed, form feed and carriage return.
pub open spec fn is_space_char(c: char) -> bool {
    c == ' ' || c == '\t' || c == '\n' || c == '\x0C' || c == '\r'
}

/// The first position at or after `p` that holds no whitespace.
pub open spec fn skip_spaces(s: Seq<char>, p: int) -> int
    decreases s.len() - p,
{
    if 0 <= p < s.len() && is_space_char(s[p]) {
        skip_spaces(s, p + 1)
    } else {
        p
    }
}

/// The end of the run of identifier characters that starts at `p`.
pub open spec fn word_end(s: Seq<char>, p: int) -> int
    decreases s.len() - p,
{
    if 0 <= p < s.len() && is_letter_char(s[p]) {
        word_end(s, p + 1)
    } else {
        p
    }
}

/// The end of the run of digits that starts at `p`.
pub open spec fn digits_end(s: Seq<char>, p: int) -> int
    decreases s.len() - p,
{
    if 0 <= p < s.len() && is_digit_char(s[p]) {
        digits_end(s, p + 1)
    } else {
        p
    }
}

/// The kind of a token made of the one character `c`; `Illegal` for a
/// character that begins no token.
pub open spec fn single_char_kind(c: char) -> TokenKind {
    if c == '=' {
        TokenKind::Assign
    } else if c == '!' {
        TokenKind::Bang
    } else if c == '+' {
        TokenKind::Plus
    } else if c == '-' {
        TokenKind::Minus
    } else if c == '*' {
        TokenKind::Asterisk
    } else if c == '/' {
        TokenKind::Slash
    } else if c == '<' {
        TokenKind::Lt
    } else if c == '>' {
        TokenKind::Gt
    } else if c == ',' {
        TokenKind::Comma
    } else if c == ';' {
        TokenKind::SemiColon
    } else if c == '(' {
        TokenKind::LParen
    } else if c == ')' {
        TokenKind::RParen
    } else if c == '{' {
        TokenKind::LBrace
    } else if c == '}' {
        TokenKind::RBrace
    } else {
        TokenKind::Illegal
    }
}

/// The kind and the end of the token that starts at `q`, where `q` holds
/// a character that is no whitespace.
pub open spec fn scan_at(s: Seq<char>, q: int) -> (TokenKind, int) {
    let c = s[q];
    if c == '=' && q + 1 < s.len() && s[q + 1] == '=' {
        (TokenKind::Eq, q + 2)
    } else if c == '!' && q + 1 < s.len() && s[q + 1] == '=' {
        (TokenKind::NotEq, q + 2)
    } else if is_letter_char(c) {
        let e = word_end(s, q);
        (keyword_kind(s.subrange(q, e)), e)
    } else if is_digit_char(c) {
        (TokenKind::Int, digits_end(s, q))
    } else {
        (single_char_kind(c), q + 1)
    }
}

/// The token that the lexer reads at position `p` of `s`, and the position
/// after it. Whitespace before the token is skipped; at the end of the
/// input the token is `EOF` with an empty literal, and the position stays
/// at the end. Every other token's literal is the text it was scanned
/// from, so an `Illegal` token carries the one character that begins no
/// token (a NUL character included).
pub open spec fn lex(s: Seq<char>, p: int) -> (SpecToken, int) {
    let q = skip_spaces(s, p);
    if q >= s.len() {
        (SpecToken { kind: TokenKind::EOF, literal: Seq::empty() }, s.len() as int)
    } else {
        let (k, e) = scan_at(s, q);
        (SpecToken { kind: k, literal: s.subrange(q, e) }, e)
    }
}

proof fn lemma_skip_spaces_bounds(s: Seq<char>, p: int)
    requires
        0 <= p <= s.len(),
    ensures
        p <= skip_spaces(s, p) <= s.len(),
        skip_spaces(s, p) < s.len() ==> !is_space_char(s[skip_spaces(s, p)]),
    decreases s.len() - p,
{
    if p < s.len() && is_space_char(s[p]) {
        lemma_skip_spaces_bounds(s, p + 1);
    }
}

proof fn lemma_word_end_bounds(s: Seq<char>, p: int)
    requires
        0 <= p <= s.len(),
    ensures
        p <= word_end(s, p) <= s.len(),
    decreases s.len() - p,
{
    if p < s.len() && is_letter_char(s[p]) {
        lemma_word_end_bounds(s, p + 1);
    }
}

proof fn lemma_digits_end_bounds(s: Seq<char>, p: int)
    requires
        0 <= p <= s.len(),
    ensures
        p <= digits_end(s, p) <= s.len(),
    decreases s.len() - p,
{
    if p < s.len() && is_digit_char(s[p]) {
        lemma_digits_end_bounds(s, p + 1);
    }
}

/// The lexer never moves backwards nor past the end, and it moves forward
/// on every token but `EOF`.
pub proof fn lemma_lex_advances(s: Seq<char>, p: int)
    requires
        0 <= p <= s.len(),
    ensures
        p <= lex(s, p).1 <= s.len(),
        lex(s, p).0.kind != TokenKind::EOF ==> p < lex(s, p).1,
        lex(s, p).0.kind == TokenKind::EOF ==> lex(s, p).1 == s.len(),
{
    lemma_skip_spaces_bounds(s, p);
    let q = skip_spaces(s, p);
    if q < s.len() {
        lemma_word_end_bounds(s, q);
        lemma_digits_end_bounds(s, q);
        let c = s[q];
        if is_letter_char(c) {
            lemma_word_end_bounds(s, q + 1);
        }
        if is_digit_char(c) {
            lemma_digits_end_bounds(s, q + 1);
        }
    }
}

/// Once the lexer has reached the end of its input, every further call
/// returns `EOF` again and leaves the position where it is.
pub proof fn lemma_eof_is_fixed_point(s: Seq<char>, p: int)
    requires
        0 <= p <= s.len(),
        lex(s, p).0.kind == TokenKind::EOF,
    ensures
        lex(s, lex(s, p).1) == lex(s, p),
{
    lemma_lex_advances(s, p);
}

/// A scanner over one source string that hands out one token per call.
pub struct Lexer {
    input: String,
    len: usize,
    position: usize,
}

impl Lexer {
    #[verifier::type_invariant]
    spec fn inv(&self) -> bool {
        &&& self.len == self.input@.len()
        &&& self.position <= self.len
    }

    /// The source text.
    pub closed spec fn text(&self) -> Seq<char> {
        self.input@
    }

    /// The position of the next character to scan.
    pub closed spec fn pos(&self) -> int {
        self.position as int
    }

    /// A lexer at the start of `input`.
    pub fn new(input: &str) -> (r: Lexer)
        ensures
            r.text() == input@,
            r.pos() == 0,
    {
        let len = input.unicode_len();
        Lexer { input: String::from_str(input), len, position: 0 }
    }

    /// Returns the token at the current position and moves past it. The
    /// position always lies within the text.
    pub fn next_token(&mut self) -> (r: Token)
        ensures
            0 <= old(self).pos() <= old(self).text().len(),
            final(self).text() == old(self).text(),
            (r@, final(self).pos()) == lex(old(self).text(), old(self).pos()),
    {
        proof {
            use_type_invariant(&*self);
        }
        self.skip_whitespace();
        proof {
            use_type_invariant(&*self);
            lemma_skip_spaces_bounds(old(self).text(), old(self).pos());
        }
        let q = self.position;
        if q >= self.len {
            return Token { kind: TokenKind::EOF, literal: String::new() };
        }
        let c = self.input.as_str().get_char(q);
        if self.is_letter() {
            let literal = self.read_identifier();
            let kind = TokenKind::look_up_ident(literal.as_str());
            return Token { kind, literal };
        }
        if self.is_digit() {
            let literal = self.read_number();
            return Token { kind: TokenKind::Int, literal };
        }
        let next_is_assign = q + 1 < self.len && self.input.as_str().get_char(q + 1) == '=';
        let kind;
        let end;
        if c == '=' && next_is_assign {
            kind = TokenKind::Eq;
            end = q + 2;
        } else if c == '!' && next_is_assign {
            kind = TokenKind::NotEq;
            end = q + 2;
        } else {
            kind = single_char(c);
            end = q + 1;
        }
        let literal = String::from_str(self.input.as_str().substring_char(q, end));
        self.position = end;
        Token { kind, literal }
    }

    fn read_identifier(&mut self) -> (r: String)
        requires
            old(self).pos() < old(self).text().len(),
            is_letter_char(old(self).text()[old(self).pos()]),
        ensures
            final(self).text() == old(self).text(),
            final(self).pos() == word_end(old(self).text(), old(self).pos()),
            r@ == old(self).text().subrange(old(self).pos(), final(self).pos()),
    {
        proof {
            use_type_invariant(&*self);
        }
        let start = self.position;
        while self.is_letter()
            invariant
                self.text() == old(self).text(),
                start <= self.pos() <= self.text().len(),
                word_end(self.text(), start as int) == word_end(self.text(), self.pos()),
            decreases self.text().len() - self.pos(),
        {
            self.read_char();
        }
        proof {
            use_type_invariant(&*self);
        }
        String::from_str(self.input.as_str().substring_char(start, self.position))
    }

    fn read_number(&mut self) -> (r: String)
        requires
            old(self).pos() < old(self).text().len(),
            is_digit_char(old(self).text()[old(self).pos()]),
        ensures
            final(self).text() == old(self).text(),
            final(self).pos() == digits_end(old(self).text(), old(self).pos()),
            r@ == old(self).text().subrange(old(self).pos(), final(self).pos()),
    {
        proof {
            use_type_invariant(&*self);
        }
        let start = self.position;
        while self.is_digit()
            invariant
                self.text() == old(self).text(),
                start <= self.pos() <= self.text().len(),
                digits_end(self.text(), start as int) == digits_end(self.text(), self.pos()),
            decreases self.text().len() - self.pos(),
        {
            self.read_char();
        }
        proof {
            use_type_invariant(&*self);
        }
        String::from_str(self.input.as_str().substring_char(start, self.position))
    }

    /// Whether the current character starts or continues an identifier.
    fn is_letter(&self) -> (r: bool)
        ensures
            r == (self.pos() < self.text().len() && is_letter_char(self.text()[self.pos()])),
    {
        proof {
            use_type_invariant(self);
        }
        if self.position < self.len {
            let c = self.input.as_str().get_char(self.position);
            ('a' <= c && c <= 'z') || ('A' <= c && c <= 'Z') || c == '_'
        } else {
            false
        }
    }

    /// Whether the current character is a decimal digit.
    fn is_digit(&self) -> (r: bool)
        ensures
            r == (self.pos() < self.text().len() && is_digit_char(self.text()[self.pos()])),
    {
        proof {
            use_type_invariant(self);
        }
        if self.position < self.len {
            let c = self.input.as_str().get_char(self.position);
            '0' <= c && c <= '9'
        } else {
            false
        }
    }

    /// Whether the current character is whitespace.
    fn is_space(&self) -> (r: bool)
        ensures
            r == (self.pos() < self.text().len() && is_space_char(self.text()[self.pos()])),
    {
        proof {
            use_type_invariant(self);
        }
        if self.position < self.len {
            let c = self.input.as_str().get_char(self.position);
            c == ' ' || c == '\t' || c == '\n' || c == '\x0C' || c == '\r'
        } else {
            false
        }
    }

    /// Moves one character forward.
    fn read_char(&mut self)
        requires
            old(self).pos() < old(self).text().len(),
        ensures
            final(self).text() == old(self).text(),
            final(self).pos() == old(self).pos() + 1,
    {
        proof {
            use_type_invariant(&*self);
        }
        self.position = self.position + 1;
    }

    fn skip_whitespace(&mut self)
        ensures
            final(self).text() == old(self).text(),
            final(self).pos() == skip_spaces(old(self).text(), old(self).pos()),
    {
        proof {
            use_type_invariant(&*self);
        }
        while self.is_space()
            invariant
                self.text() == old(self).text(),
                0 <= self.pos() <= self.text().len(),
                skip_spaces(self.text(), old(self).pos()) == skip_spaces(self.text(), self.pos()),
            decreases self.text().len() - self.pos(),
        {
            self.read_char();
        }
    }
}

/// The kind of a one-character token.
fn single_char(c: char) -> (r: TokenKind)
    ensures
        r == single_char_kind(c),
{
    match c {
        '=' => TokenKind::Assign,
        '!' => TokenKind::Bang,
        '+' => TokenKind::Plus,
        '-' => TokenKind::Minus,
        '*' => TokenKind::Asterisk,
        '/' => TokenKind::Slash,
        '<' => TokenKind::Lt,
        '>' => TokenKind::Gt,
        ',' => TokenKind::Comma,
        ';' => TokenKind::SemiColon,
        '(' => TokenKind::LParen,
        ')' => TokenKind::RParen,
        '{' => TokenKind::LBrace,
        '}' => TokenKind::RBrace,
        _ => TokenKind::Illegal,
    }
}

} // verus!
