//! A Pratt parser with one token of lookahead beyond the current one.
//!
//! Which tokens begin an expression, and which continue one as binary
//! operators, is decided by a `match` on the token kind. Diagnostics are
//! collected, never fatal: a failed expression leaves its slot empty, an
//! abandoned statement is left out, and parsing goes on to the end of the
//! input. The value of a `let` and of a `return` is parsed as a full
//! expression.
//!
//! Each parsing method is proved equal to a spec function of the same
//! shape over the text and a `ParseState`, which the public contracts use.

use crate::ast::{
    Boolean, Expression, ExpressionStatement, Identifier, InfixExpression, IntegerLiteral,
    LetStatement, PrefixExpression, Program, ReturnStatement, SpecExpr, SpecStmt, Statement,
    opt_model, opt_stmt_model,
};
use crate::lexer::{is_digit_char, lemma_lex_advances, lex, Lexer};
use crate::token::{kind_name, SpecToken, Token, TokenKind};
use vstd::prelude::*;
use vstd::string::*;

verus! {

/// Binding power of an operator, weakest first.
#[derive(Debug, Clone, Copy, PartialEq, Eq, Structural)]
pub enum Precedence {
    Lowest,
    Equals,
    LessGreater,
    Sum,
    Product,
    Prefix,
    Call,
}

/// The position of a binding power in the order `Lowest < Equals <
/// LessGreater < Sum < Product < Prefix < Call`.
pub open spec fn rank(p: Precedence) -> int {
    match p {
        Precedence::Lowest => 0,
        Precedence::Equals => 1,
        Precedence::LessGreater => 2,
        Precedence::Sum => 3,
        Precedence::Product => 4,
        Precedence::Prefix => 5,
        Precedence::Call => 6,
    }
}

/// The binding power of a token kind as an infix operator; `Lowest` for a
/// kind that binds nothing.
pub open spec fn precedence_of(k: TokenKind) -> Precedence {
    match k {
        TokenKind::Eq | TokenKind::NotEq => Precedence::Equals,
        TokenKind::Lt | TokenKind::Gt => Precedence::LessGreater,
        TokenKind::Plus | TokenKind::Minus => Precedence::Sum,
        TokenKind::Asterisk | TokenKind::Slash => Precedence::Product,
        _ => Precedence::Lowest,
    }
}

/// Whether a token of kind `k` can begin an expression.
pub open spec fn has_prefix(k: TokenKind) -> bool {
    match k {
        TokenKind::Ident | TokenKind::Int | TokenKind::True | TokenKind::False
        | TokenKind::Bang | TokenKind::Minus | TokenKind::LParen => true,
        _ => false,
    }
}

/// Whether a token of kind `k` can continue an expression as a binary
/// operator.
pub open spec fn has_infix(k: TokenKind) -> bool {
    match k {
        TokenKind::Plus | TokenKind::Minus | TokenKind::Asterisk | TokenKind::Slash
        | TokenKind::Eq | TokenKind::NotEq | TokenKind::Lt | TokenKind::Gt => true,
        _ => false,
    }
}

/// The decimal value of a sequence of digits.
pub open spec fn digits_value(d: Seq<char>) -> int
    decreases d.len(),
{
    if d.len() == 0 {
        0
    } else {
        digits_value(d.drop_last()) * 10 + (d.last() as int - '0' as int)
    }
}

/// The 64-bit signed value of an integer literal: `None` where the
/// literal is empty, holds a non-digit, or exceeds `i64::MAX`.
pub open spec fn int_of(lit: Seq<char>) -> Option<int> {
    if 0 < lit.len() && (forall|i: int| 0 <= i < lit.len() ==> is_digit_char(#[trigger] lit[i]))
        && digits_value(lit) <= i64::MAX {
        Some(digits_value(lit))
    } else {
        None
    }
}

/// The diagnostic for a token that cannot begin an expression.
pub open spec fn no_prefix_msg(k: TokenKind) -> Seq<char> {
    "no prefix parse function for "@ + kind_name(k) + " found"@
}

/// The diagnostic for a next token of the wrong kind.
pub open spec fn peek_error_msg(expected: TokenKind, got: TokenKind) -> Seq<char> {
    "expected next token to be "@ + kind_name(expected) + ", got "@ + kind_name(got)
        + " instead"@
}

/// The diagnostic for an integer literal out of the 64-bit range.
pub open spec fn int_error_msg(lit: Seq<char>) -> Seq<char> {
    "could not parse "@ + lit + " as integer"@
}

/// Where a parse stands: the start of the current token in the text, and
/// the diagnostics recorded so far.
pub struct ParseState {
    pub pos: int,
    pub errors: Seq<Seq<char>>,
}

/// The token that starts at or after position `c`.
pub open spec fn token_at(s: Seq<char>, c: int) -> SpecToken {
    lex(s, c).0
}

/// The position just after the token read at `c`.
pub open spec fn next_pos(s: Seq<char>, c: int) -> int {
    lex(s, c).1
}

/// The token after the one read at `c`.
pub open spec fn peek_at(s: Seq<char>, c: int) -> SpecToken {
    token_at(s, next_pos(s, c))
}

/// The state after moving one token forward.
pub open spec fn advance(s: Seq<char>, st: ParseState) -> ParseState {
    ParseState { pos: next_pos(s, st.pos), errors: st.errors }
}

/// The state with one more diagnostic recorded.
pub open spec fn record(st: ParseState, msg: Seq<char>) -> ParseState {
    ParseState { pos: st.pos, errors: st.errors.push(msg) }
}

/// An optional operand, boxed as a child of a composite expression.
pub open spec fn boxed(e: Option<SpecExpr>) -> Option<Box<SpecExpr>> {
    match e {
        Some(x) => Some(Box::new(x)),
        None => None,
    }
}

/// Pratt parsing of one expression at the current token, binding operators
/// tighter than `min`. Where the current token cannot begin an expression,
/// the expression is missing and a diagnostic is recorded.
pub open spec fn parse_expr(s: Seq<char>, st: ParseState, min: Precedence) -> (
    Option<SpecExpr>,
    ParseState,
)
    decreases s.len() - st.pos, 2int,
{
    let k = token_at(s, st.pos).kind;
    if !has_prefix(k) {
        (None, record(st, no_prefix_msg(k)))
    } else {
        let (left, st1) = parse_prefix(s, st);
        if st.pos <= st1.pos <= s.len() {
            parse_infix_loop(s, st1, min, left)
        } else {
            (left, st1)
        }
    }
}

/// The expression that the current token begins: an identifier, an
/// integer or boolean literal, a prefix operator applied to the expression
/// that follows, or a parenthesised expression.
pub open spec fn parse_prefix(s: Seq<char>, st: ParseState) -> (Option<SpecExpr>, ParseState)
    decreases s.len() - st.pos, 1int,
{
    let t = token_at(s, st.pos);
    let st1 = advance(s, st);
    match t.kind {
        TokenKind::Ident => (Some(SpecExpr::Ident { token: t, value: t.literal }), st),
        TokenKind::Int => match int_of(t.literal) {
            Some(v) => (Some(SpecExpr::Int { token: t, value: v }), st),
            None => (None, record(st, int_error_msg(t.literal))),
        },
        TokenKind::True | TokenKind::False => (
            Some(SpecExpr::Bool { token: t, value: t.kind == TokenKind::True }),
            st,
        ),
        TokenKind::Bang | TokenKind::Minus => {
            if st.pos < st1.pos <= s.len() {
                let (right, st2) = parse_expr(s, st1, Precedence::Prefix);
                (Some(SpecExpr::Prefix { token: t, operator: t.literal, right: boxed(right) }), st2)
            } else {
                (None, st1)
            }
        },
        TokenKind::LParen => {
            if st.pos < st1.pos <= s.len() {
                let (inner, st2) = parse_expr(s, st1, Precedence::Lowest);
                let k = peek_at(s, st2.pos).kind;
                if k == TokenKind::RParen {
                    (inner, advance(s, st2))
                } else {
                    (None, record(st2, peek_error_msg(TokenKind::RParen, k)))
                }
            } else {
                (None, st1)
            }
        },
        _ => (None, st),
    }
}

/// The left-associative loop of Pratt parsing: while the next token is an
/// operator that binds tighter than `min` (and no semicolon), it becomes the
/// current token and joins `left` with the expression after it.
pub open spec fn parse_infix_loop(
    s: Seq<char>,
    st: ParseState,
    min: Precedence,
    left: Option<SpecExpr>,
) -> (Option<SpecExpr>, ParseState)
    decreases s.len() - st.pos, 0int,
{
    let k = peek_at(s, st.pos).kind;
    if k != TokenKind::SemiColon && rank(min) < rank(precedence_of(k)) && has_infix(k) {
        let st1 = advance(s, st);
        if st.pos < st1.pos <= s.len() {
            let (e, st2) = parse_infix(s, st1, left);
            if st.pos < st2.pos <= s.len() {
                parse_infix_loop(s, st2, min, e)
            } else {
                (e, st2)
            }
        } else {
            (left, st1)
        }
    } else {
        (left, st)
    }
}

/// The binary expression whose operator is the current token: `left`, the
/// operator, and the expression after it, parsed at the operator's own
/// binding power.
pub open spec fn parse_infix(s: Seq<char>, st: ParseState, left: Option<SpecExpr>) -> (
    Option<SpecExpr>,
    ParseState,
)
    decreases s.len() - st.pos, 3int,
{
    let t = token_at(s, st.pos);
    let st1 = advance(s, st);
    if st.pos < st1.pos <= s.len() {
        let (right, st2) = parse_expr(s, st1, precedence_of(t.kind));
        (
            Some(
                SpecExpr::Infix {
                    token: t,
                    left: boxed(left),
                    operator: t.literal,
                    right: boxed(right),
                },
            ),
            st2,
        )
    } else {
        (None, st1)
    }
}

/// Moves past a semicolon that follows the current token, if there is one.
pub open spec fn skip_semicolon(s: Seq<char>, st: ParseState) -> ParseState {
    if peek_at(s, st.pos).kind == TokenKind::SemiColon {
        advance(s, st)
    } else {
        st
    }
}

/// `let <identifier> = <expression>`, then an optional semicolon. Where
/// the identifier or the `=` is missing, the statement is abandoned with a
/// diagnostic, at the last token that matched.
pub open spec fn parse_let(s: Seq<char>, st: ParseState) -> (Option<SpecStmt>, ParseState) {
    let t = token_at(s, st.pos);
    let k1 = peek_at(s, st.pos).kind;
    if k1 != TokenKind::Ident {
        (None, record(st, peek_error_msg(TokenKind::Ident, k1)))
    } else {
        let st1 = advance(s, st);
        let name = token_at(s, st1.pos);
        let k2 = peek_at(s, st1.pos).kind;
        if k2 != TokenKind::Assign {
            (None, record(st1, peek_error_msg(TokenKind::Assign, k2)))
        } else {
            let st3 = advance(s, advance(s, st1));
            let (value, st4) = parse_expr(s, st3, Precedence::Lowest);
            (
                Some(SpecStmt::Let { token: t, name_token: name, name: name.literal, value }),
                skip_semicolon(s, st4),
            )
        }
    }
}

/// `return <expression>`, then an optional semicolon.
pub open spec fn parse_return(s: Seq<char>, st: ParseState) -> (Option<SpecStmt>, ParseState) {
    let t = token_at(s, st.pos);
    let (value, st2) = parse_expr(s, advance(s, st), Precedence::Lowest);
    (Some(SpecStmt::Return { token: t, value }), skip_semicolon(s, st2))
}

/// An expression standing as a statement, then an optional semicolon.
pub open spec fn parse_expr_stmt(s: Seq<char>, st: ParseState) -> (Option<SpecStmt>, ParseState) {
    let t = token_at(s, st.pos);
    let (e, st1) = parse_expr(s, st, Precedence::Lowest);
    (Some(SpecStmt::Expr { token: t, expression: e }), skip_semicolon(s, st1))
}

/// One statement, chosen by its first token.
pub open spec fn parse_stmt(s: Seq<char>, st: ParseState) -> (Option<SpecStmt>, ParseState) {
    match token_at(s, st.pos).kind {
        TokenKind::Let => parse_let(s, st),
        TokenKind::Return => parse_return(s, st),
        _ => parse_expr_stmt(s, st),
    }
}

/// The statements from the current token to the end of the input, after
/// those already in `acc`: each statement is parsed, kept unless it was
/// abandoned, and followed by a move to the next token.
pub open spec fn parse_stmts(s: Seq<char>, st: ParseState, acc: Seq<SpecStmt>) -> (
    Seq<SpecStmt>,
    ParseState,
)
    decreases s.len() - st.pos,
{
    if token_at(s, st.pos).kind == TokenKind::EOF {
        (acc, st)
    } else {
        let (o, st1) = parse_stmt(s, st);
        let acc1 = match o {
            Some(x) => acc.push(x),
            None => acc,
        };
        let st2 = advance(s, st1);
        if st.pos < st2.pos <= s.len() {
            parse_stmts(s, st2, acc1)
        } else {
            (acc1, st2)
        }
    }
}

proof fn lemma_digits_value_nonneg(d: Seq<char>)
    requires
        forall|i: int| 0 <= i < d.len() ==> is_digit_char(#[trigger] d[i]),
    ensures
        digits_value(d) >= 0,
    decreases d.len(),
{
    if d.len() > 0 {
        lemma_digits_value_nonneg(d.drop_last());
    }
}

/// A prefix of a run of digits is worth no more than the whole run.
proof fn lemma_digits_value_prefix(d: Seq<char>, i: int)
    requires
        0 <= i <= d.len(),
        forall|j: int| 0 <= j < d.len() ==> is_digit_char(#[trigger] d[j]),
    ensures
        digits_value(d.subrange(0, i)) <= digits_value(d),
    decreases d.len(),
{
    if i == d.len() {
        assert(d.subrange(0, i) =~= d);
    } else {
        let p = d.drop_last();
        assert(p.subrange(0, i) =~= d.subrange(0, i));
        lemma_digits_value_prefix(p, i);
        lemma_digits_value_nonneg(p);
    }
}

/// Reads a run of decimal digits as a 64-bit signed integer.
fn parse_i64(lit: &str) -> (r: Option<i64>)
    ensures
        match r {
            Some(v) => int_of(lit@) == Some(v as int),
            None => int_of(lit@) is None,
        },
{
    let n = lit.unicode_len();
    if n == 0 {
        return None;
    }
    let ghost d = lit@;
    let mut acc: i64 = 0;
    let mut i: usize = 0;
    while i < n
        invariant
            n == d.len(),
            d == lit@,
            0 < n,
            i <= n,
            forall|j: int| 0 <= j < i ==> is_digit_char(#[trigger] d[j]),
            0 <= acc,
            acc as int == digits_value(d.subrange(0, i as int)),
        decreases n - i,
    {
        let c = lit.get_char(i);
        if !('0' <= c && c <= '9') {
            return None;
        }
        let digit = (c as u32 - '0' as u32) as i64;
        proof {
            assert(d.subrange(0, i + 1).drop_last() =~= d.subrange(0, i as int));
        }
        let next = match acc.checked_mul(10) {
            Some(m) => m.checked_add(digit),
            None => None,
        };
        match next {
            Some(v) => {
                acc = v;
            },
            None => {
                proof {
                    let p = d.subrange(0, i + 1);
                    assert(p.last() == c);
                    assert(digits_value(p) == acc * 10 + digit);
                    assert(digits_value(p) > i64::MAX);
                    if forall|j: int| 0 <= j < d.len() ==> is_digit_char(#[trigger] d[j]) {
                        lemma_digits_value_prefix(d, i + 1);
                    }
                }
                return None;
            },
        }
        i = i + 1;
    }
    proof {
        assert(d.subrange(0, n as int) =~= d);
    }
    Some(acc)
}

/// A Pratt parser over the tokens of one lexer.
pub struct Parser {
    l: Lexer,
    cur_token: Token,
    peek_token: Token,
    errors: Vec<String>,
    cursor: Ghost<int>,
}

impl Parser {
    /// The source text being parsed.
    pub closed spec fn text(&self) -> Seq<char> {
        self.l.text()
    }

    /// Where the current token's scan starts in the text.
    pub closed spec fn cursor(&self) -> int {
        self.cursor@
    }

    /// The diagnostics recorded so far, in order.
    pub closed spec fn error_list(&self) -> Seq<Seq<char>> {
        self.errors@.map_values(|e: String| e@)
    }

    /// The cursor and the diagnostics together.
    pub open spec fn state(&self) -> ParseState {
        ParseState { pos: self.cursor(), errors: self.error_list() }
    }

    /// The current token and the one after it are those the lexer reads at
    /// the cursor, and the lexer stands just after them.
    pub closed spec fn wf(&self) -> bool {
        let s = self.text();
        let c = self.cursor();
        &&& 0 <= c <= s.len()
        &&& self.cur_token@ == token_at(s, c)
        &&& self.peek_token@ == peek_at(s, c)
        &&& self.l.pos() == next_pos(s, next_pos(s, c))
    }

    /// Reads the first two tokens of `l`.
    pub fn new(l: Lexer) -> (p: Parser)
        ensures
            p.wf(),
            p.text() == l.text(),
            p.cursor() == l.pos(),
            p.error_list() == Seq::<Seq<char>>::empty(),
    {
        let ghost first_pos = l.pos();
        let mut l = l;
        let cur_token = l.next_token();
        proof {
            lemma_lex_advances(l.text(), first_pos);
        }
        let peek_token = l.next_token();
        let p = Parser { l, cur_token, peek_token, errors: Vec::new(), cursor: Ghost(first_pos) };
        proof {
            assert(p.error_list() =~= Seq::<Seq<char>>::empty());
        }
        p
    }

    /// The diagnostics recorded so far.
    pub fn errors(&self) -> (r: &Vec<String>)
        ensures
            r@.map_values(|e: String| e@) == self.error_list(),
    {
        &self.errors
    }

    fn push_error(&mut self, msg: String)
        requires
            old(self).wf(),
        ensures
            final(self).wf(),
            final(self).text() == old(self).text(),
            final(self).state() == record(old(self).state(), msg@),
    {
        self.errors.push(msg);
        proof {
            assert(self.error_list() =~= old(self).error_list().push(msg@));
        }
    }

    fn no_prefix_parse_fn_error(&mut self, k: TokenKind)
        requires
            old(self).wf(),
        ensures
            final(self).wf(),
            final(self).text() == old(self).text(),
            final(self).state() == record(old(self).state(), no_prefix_msg(k)),
    {
        let mut msg = String::from_str("no prefix parse function for ");
        msg.append(k.name());
        msg.append(" found");
        self.push_error(msg);
    }

    fn peek_error(&mut self, k: TokenKind)
        requires
            old(self).wf(),
        ensures
            final(self).wf(),
            final(self).text() == old(self).text(),
            final(self).state() == record(
                old(self).state(),
                peek_error_msg(k, peek_at(old(self).text(), old(self).cursor()).kind),
            ),
    {
        let mut msg = String::from_str("expected next token to be ");
        msg.append(k.name());
        msg.append(", got ");
        msg.append(self.peek_token.kind.name());
        msg.append(" instead");
        self.push_error(msg);
    }

    /// Moves one token forward.
    fn next_token(&mut self)
        requires
            old(self).wf(),
        ensures
            final(self).wf(),
            final(self).text() == old(self).text(),
            final(self).state() == advance(old(self).text(), old(self).state()),
    {
        let ghost s = self.text();
        let ghost c = self.cursor();
        proof {
            lemma_lex_advances(s, c);
            lemma_lex_advances(s, next_pos(s, c));
        }
        let t = self.l.next_token();
        self.cur_token = self.peek_token.duplicate();
        self.peek_token = t;
        self.cursor = Ghost(next_pos(s, c));
    }

    fn cur_token_is(&self, k: TokenKind) -> (r: bool)
        requires
            self.wf(),
        ensures
            r == (token_at(self.text(), self.cursor()).kind == k),
    {
        self.cur_token.kind == k
    }

    /// Whether the token after the current one has kind `k`.
    pub fn peek_token_is(&self, k: TokenKind) -> (r: bool)
        requires
            self.wf(),
        ensures
            r == (peek_at(self.text(), self.cursor()).kind == k),
    {
        self.peek_token.kind == k
    }

    /// Moves to the next token where it has kind `k`; otherwise records a
    /// diagnostic and stays.
    fn expect_peek(&mut self, k: TokenKind) -> (r: bool)
        requires
            old(self).wf(),
        ensures
            final(self).wf(),
            final(self).text() == old(self).text(),
            r == (peek_at(old(self).text(), old(self).cursor()).kind == k),
            r ==> final(self).state() == advance(old(self).text(), old(self).state()),
            !r ==> final(self).state() == record(
                old(self).state(),
                peek_error_msg(k, peek_at(old(self).text(), old(self).cursor()).kind),
            ),
    {
        if self.peek_token_is(k) {
            self.next_token();
            true
        } else {
            self.peek_error(k);
            false
        }
    }

    fn peek_precedence(&self) -> (r: Precedence)
        requires
            self.wf(),
        ensures
            r == precedence_of(peek_at(self.text(), self.cursor()).kind),
    {
        get_precedence(self.peek_token.kind)
    }

    fn cur_precedence(&self) -> (r: Precedence)
        requires
            self.wf(),
        ensures
            r == precedence_of(token_at(self.text(), self.cursor()).kind),
    {
        get_precedence(self.cur_token.kind)
    }
}

/// The lexer reads `EOF` again after `EOF`, so a token other than `EOF`
/// after the current one means the current one is no `EOF` either, and
/// moving past it moves forward.
proof fn lemma_advance_moves(s: Seq<char>, c: int)
    requires
        0 <= c <= s.len(),
        token_at(s, c).kind != TokenKind::EOF || peek_at(s, c).kind != TokenKind::EOF,
    ensures
        c < next_pos(s, c) <= s.len(),
{
    lemma_lex_advances(s, c);
    lemma_lex_advances(s, s.len() as int);
}

impl Parser {
    /// Parses one expression at the current token, binding operators that
    /// bind tighter than `precedence`.
    fn parse_expression(&mut self, precedence: Precedence) -> (r: Option<Expression>)
        requires
            old(self).wf(),
        ensures
            final(self).wf(),
            final(self).text() == old(self).text(),
            old(self).cursor() <= final(self).cursor(),
            (opt_model(r), final(self).state()) == parse_expr(
                old(self).text(),
                old(self).state(),
                precedence,
            ),
        decreases old(self).text().len() - old(self).cursor(), 2int,
    {
        let ghost s = self.text();
        let ghost st0 = self.state();
        let k = self.cur_token.kind;
        let left = match k {
            TokenKind::Ident => self.parse_identifier(),
            TokenKind::Int => self.parse_integer_literal(),
            TokenKind::True | TokenKind::False => self.parse_boolean(),
            TokenKind::Bang | TokenKind::Minus => self.parse_prefix_expression(),
            TokenKind::LParen => self.parse_grouped_expression(),
            _ => {
                self.no_prefix_parse_fn_error(k);
                return None;
            },
        };
        let mut left_exp = left;
        while !self.peek_token_is(TokenKind::SemiColon) && precedence.binds_less_than(
            self.peek_precedence(),
        ) && is_infix_operator(self.peek_token.kind)
            invariant
                self.wf(),
                self.text() == s,
                s == old(self).text(),
                st0 == old(self).state(),
                st0.pos <= self.cursor(),
                parse_infix_loop(s, self.state(), precedence, opt_model(left_exp)) == parse_expr(
                    s,
                    st0,
                    precedence,
                ),
            decreases s.len() - self.cursor(),
        {
            proof {
                lemma_advance_moves(s, self.cursor());
            }
            self.next_token();
            left_exp = self.parse_infix_expression(left_exp);
        }
        left_exp
    }

    fn parse_identifier(&self) -> (r: Option<Expression>)
        requires
            self.wf(),
            token_at(self.text(), self.cursor()).kind == TokenKind::Ident,
        ensures
            (opt_model(r), self.state()) == parse_prefix(self.text(), self.state()),
    {
        Some(
            Expression::Identifier(
                Identifier { token: self.cur_token.duplicate(), value: self.cur_token.literal.clone() },
            ),
        )
    }

    fn parse_integer_literal(&mut self) -> (r: Option<Expression>)
        requires
            old(self).wf(),
            token_at(old(self).text(), old(self).cursor()).kind == TokenKind::Int,
        ensures
            final(self).wf(),
            final(self).text() == old(self).text(),
            (opt_model(r), final(self).state()) == parse_prefix(old(self).text(), old(self).state()),
    {
        let token = self.cur_token.duplicate();
        match parse_i64(self.cur_token.literal.as_str()) {
            Some(value) => Some(Expression::IntegerLiteral(IntegerLiteral { token, value })),
            None => {
                let mut msg = String::from_str("could not parse ");
                msg.append(self.cur_token.literal.as_str());
                msg.append(" as integer");
                self.push_error(msg);
                None
            },
        }
    }

    fn parse_boolean(&self) -> (r: Option<Expression>)
        requires
            self.wf(),
            token_at(self.text(), self.cursor()).kind == TokenKind::True
                || token_at(self.text(), self.cursor()).kind == TokenKind::False,
        ensures
            (opt_model(r), self.state()) == parse_prefix(self.text(), self.state()),
    {
        Some(
            Expression::Boolean(
                Boolean {
                    token: self.cur_token.duplicate(),
                    value: self.cur_token_is(TokenKind::True),
                },
            ),
        )
    }

    fn parse_prefix_expression(&mut self) -> (r: Option<Expression>)
        requires
            old(self).wf(),
            token_at(old(self).text(), old(self).cursor()).kind == TokenKind::Bang
                || token_at(old(self).text(), old(self).cursor()).kind == TokenKind::Minus,
        ensures
            final(self).wf(),
            final(self).text() == old(self).text(),
            old(self).cursor() <= final(self).cursor(),
            (opt_model(r), final(self).state()) == parse_prefix(old(self).text(), old(self).state()),
        decreases old(self).text().len() - old(self).cursor(), 1int,
    {
        proof {
            lemma_advance_moves(self.text(), self.cursor());
        }
        let token = self.cur_token.duplicate();
        let operator = self.cur_token.literal.clone();
        self.next_token();
        let right = match self.parse_expression(Precedence::Prefix) {
            Some(e) => Some(Box::new(e)),
            None => None,
        };
        Some(Expression::PrefixExpression(PrefixExpression { token, operator, right }))
    }

    fn parse_grouped_expression(&mut self) -> (r: Option<Expression>)
        requires
            old(self).wf(),
            token_at(old(self).text(), old(self).cursor()).kind == TokenKind::LParen,
        ensures
            final(self).wf(),
            final(self).text() == old(self).text(),
            old(self).cursor() <= final(self).cursor(),
            (opt_model(r), final(self).state()) == parse_prefix(old(self).text(), old(self).state()),
        decreases old(self).text().len() - old(self).cursor(), 1int,
    {
        proof {
            lemma_advance_moves(self.text(), self.cursor());
        }
        self.next_token();
        let inner = self.parse_expression(Precedence::Lowest);
        proof {
            lemma_lex_advances(self.text(), self.cursor());
        }
        if !self.expect_peek(TokenKind::RParen) {
            return None;
        }
        inner
    }

    fn parse_infix_expression(&mut self, left: Option<Expression>) -> (r: Option<Expression>)
        requires
            old(self).wf(),
            has_infix(token_at(old(self).text(), old(self).cursor()).kind),
        ensures
            final(self).wf(),
            final(self).text() == old(self).text(),
            old(self).cursor() <= final(self).cursor(),
            (opt_model(r), final(self).state()) == parse_infix(
                old(self).text(),
                old(self).state(),
                opt_model(left),
            ),
        decreases old(self).text().len() - old(self).cursor(), 3int,
    {
        proof {
            lemma_advance_moves(self.text(), self.cursor());
        }
        let token = self.cur_token.duplicate();
        let operator = self.cur_token.literal.clone();
        let precedence = self.cur_precedence();
        self.next_token();
        let right = match self.parse_expression(precedence) {
            Some(e) => Some(Box::new(e)),
            None => None,
        };
        let left = match left {
            Some(e) => Some(Box::new(e)),
            None => None,
        };
        Some(Expression::InfixExpression(InfixExpression { token, left, operator, right }))
    }
}

impl Parser {
    /// Parses the statements from the current token to the end of the
    /// input. Statements that had to be abandoned are left out; the
    /// diagnostics stay available through `errors`.
    pub fn parse_program(&mut self) -> (r: Program)
        requires
            old(self).wf(),
        ensures
            final(self).wf(),
            final(self).text() == old(self).text(),
            (r@, final(self).state()) == parse_stmts(
                old(self).text(),
                old(self).state(),
                Seq::empty(),
            ),
    {
        let ghost s = self.text();
        let ghost st0 = self.state();
        let mut statements: Vec<Statement> = Vec::new();
        proof {
            assert(statements@.map_values(|x: Statement| x@) =~= Seq::<SpecStmt>::empty());
        }
        while self.cur_token.kind != TokenKind::EOF
            invariant
                self.wf(),
                self.text() == s,
                parse_stmts(s, self.state(), statements@.map_values(|x: Statement| x@))
                    == parse_stmts(s, st0, Seq::empty()),
            decreases s.len() - self.cursor(),
        {
            let ghost c = self.cursor();
            proof {
                lemma_advance_moves(s, c);
            }
            let stmt = self.parse_statement();
            proof {
                lemma_lex_advances(s, self.cursor());
            }
            match stmt {
                Some(x) => {
                    let ghost before = statements@;
                    statements.push(x);
                    proof {
                        assert(statements@.map_values(|x: Statement| x@) =~= before.map_values(
                            |x: Statement| x@,
                        ).push(x@));
                    }
                },
                None => {},
            }
            self.next_token();
        }
        Program { statements }
    }

    fn parse_statement(&mut self) -> (r: Option<Statement>)
        requires
            old(self).wf(),
        ensures
            final(self).wf(),
            final(self).text() == old(self).text(),
            old(self).cursor() <= final(self).cursor(),
            (opt_stmt_model(r), final(self).state()) == parse_stmt(
                old(self).text(),
                old(self).state(),
            ),
    {
        match self.cur_token.kind {
            TokenKind::Let => self.parse_let_statement(),
            TokenKind::Return => self.parse_return_statement(),
            _ => self.parse_expression_statement(),
        }
    }

    fn parse_let_statement(&mut self) -> (r: Option<Statement>)
        requires
            old(self).wf(),
            token_at(old(self).text(), old(self).cursor()).kind == TokenKind::Let,
        ensures
            final(self).wf(),
            final(self).text() == old(self).text(),
            old(self).cursor() <= final(self).cursor(),
            (opt_stmt_model(r), final(self).state()) == parse_let(
                old(self).text(),
                old(self).state(),
            ),
    {
        let ghost s = self.text();
        proof {
            lemma_lex_advances(s, self.cursor());
        }
        let token = self.cur_token.duplicate();
        if !self.expect_peek(TokenKind::Ident) {
            return None;
        }
        proof {
            lemma_lex_advances(s, self.cursor());
        }
        let name = Identifier { token: self.cur_token.duplicate(), value: self.cur_token.literal.clone() };
        if !self.expect_peek(TokenKind::Assign) {
            return None;
        }
        proof {
            lemma_lex_advances(s, self.cursor());
        }
        self.next_token();
        let value = self.parse_expression(Precedence::Lowest);
        proof {
            lemma_lex_advances(s, self.cursor());
        }
        if self.peek_token_is(TokenKind::SemiColon) {
            self.next_token();
        }
        Some(Statement::LetStatement(LetStatement::new(token, name, value)))
    }

    fn parse_return_statement(&mut self) -> (r: Option<Statement>)
        requires
            old(self).wf(),
            token_at(old(self).text(), old(self).cursor()).kind == TokenKind::Return,
        ensures
            final(self).wf(),
            final(self).text() == old(self).text(),
            old(self).cursor() <= final(self).cursor(),
            (opt_stmt_model(r), final(self).state()) == parse_return(
                old(self).text(),
                old(self).state(),
            ),
    {
        let ghost s = self.text();
        proof {
            lemma_lex_advances(s, self.cursor());
        }
        let token = self.cur_token.duplicate();
        self.next_token();
        let return_value = self.parse_expression(Precedence::Lowest);
        proof {
            lemma_lex_advances(s, self.cursor());
        }
        if self.peek_token_is(TokenKind::SemiColon) {
            self.next_token();
        }
        Some(Statement::ReturnStatement(ReturnStatement::new(token, return_value)))
    }

    fn parse_expression_statement(&mut self) -> (r: Option<Statement>)
        requires
            old(self).wf(),
        ensures
            final(self).wf(),
            final(self).text() == old(self).text(),
            old(self).cursor() <= final(self).cursor(),
            (opt_stmt_model(r), final(self).state()) == parse_expr_stmt(
                old(self).text(),
                old(self).state(),
            ),
    {
        let ghost s = self.text();
        let token = self.cur_token.duplicate();
        let expression = self.parse_expression(Precedence::Lowest);
        proof {
            lemma_lex_advances(s, self.cursor());
        }
        if self.peek_token_is(TokenKind::SemiColon) {
            self.next_token();
        }
        Some(Statement::ExpressionStatement(ExpressionStatement::new(token, expression)))
    }
}

/// Whether a token of kind `k` continues an expression as a binary operator.
fn is_infix_operator(k: TokenKind) -> (r: bool)
    ensures
        r == has_infix(k),
{
    match k {
        TokenKind::Plus | TokenKind::Minus | TokenKind::Asterisk | TokenKind::Slash
        | TokenKind::Eq | TokenKind::NotEq | TokenKind::Lt | TokenKind::Gt => true,
        _ => false,
    }
}

/// The binding power of a token kind.
fn get_precedence(k: TokenKind) -> (r: Precedence)
    ensures
        r == precedence_of(k),
{
    match k {
        TokenKind::Eq | TokenKind::NotEq => Precedence::Equals,
        TokenKind::Lt | TokenKind::Gt => Precedence::LessGreater,
        TokenKind::Plus | TokenKind::Minus => Precedence::Sum,
        TokenKind::Asterisk | TokenKind::Slash => Precedence::Product,
        _ => Precedence::Lowest,
    }
}

impl Precedence {
    /// Whether `self` binds less tightly than `other`.
    pub fn binds_less_than(self, other: Precedence) -> (r: bool)
        ensures
            r == (rank(self) < rank(other)),
    {
        self.level() < other.level()
    }

    fn level(self) -> (r: u8)
        ensures
            r as int == rank(self),
    {
        match self {
            Precedence::Lowest => 0,
            Precedence::Equals => 1,
            Precedence::LessGreater => 2,
            Precedence::Sum => 3,
            Precedence::Product => 4,
            Precedence::Prefix => 5,
            Precedence::Call => 6,
        }
    }
}

/// Whether every operand slot of an expression is filled.
pub open spec fn expr_complete(e: SpecExpr) -> bool
    decreases e,
{
    match e {
        SpecExpr::Prefix { right, .. } => match right {
            Some(r) => expr_complete(*r),
            None => false,
        },
        SpecExpr::Infix { left, right, .. } => {
            &&& match left {
                Some(l) => expr_complete(*l),
                None => false,
            }
            &&& match right {
                Some(r) => expr_complete(*r),
                None => false,
            }
        },
        _ => true,
    }
}

/// Whether an expression is present and complete.
pub open spec fn opt_complete(e: Option<SpecExpr>) -> bool {
    match e {
        Some(x) => expr_complete(x),
        None => false,
    }
}

/// Whether a statement's expression is present and complete.
pub open spec fn stmt_complete(s: SpecStmt) -> bool {
    match s {
        SpecStmt::Let { value, .. } => opt_complete(value),
        SpecStmt::Return { value, .. } => opt_complete(value),
        SpecStmt::Expr { expression, .. } => opt_complete(expression),
    }
}

/// A parse step stays within the text, never moves back, and never drops
/// a diagnostic.
pub open spec fn step_ok(s: Seq<char>, st: ParseState, st2: ParseState) -> bool {
    &&& st.pos <= st2.pos <= s.len()
    &&& st.errors.len() <= st2.errors.len()
}

/// Each parsing step moves forward within the text and keeps every
/// diagnostic; one that leaves an operand slot empty has recorded one more.
proof fn lemma_parse_expr(s: Seq<char>, st: ParseState, min: Precedence)
    requires
        0 <= st.pos <= s.len(),
    ensures
        step_ok(s, st, parse_expr(s, st, min).1),
        !opt_complete(parse_expr(s, st, min).0) ==> st.errors.len() < parse_expr(
            s,
            st,
            min,
        ).1.errors.len(),
    decreases s.len() - st.pos, 2int,
{
    let k = token_at(s, st.pos).kind;
    if has_prefix(k) {
        lemma_parse_prefix(s, st);
        let (left, st1) = parse_prefix(s, st);
        lemma_parse_infix_loop(s, st1, min, left);
    }
}

proof fn lemma_parse_prefix(s: Seq<char>, st: ParseState)
    requires
        0 <= st.pos <= s.len(),
        has_prefix(token_at(s, st.pos).kind),
    ensures
        step_ok(s, st, parse_prefix(s, st).1),
        !opt_complete(parse_prefix(s, st).0) ==> st.errors.len() < parse_prefix(
            s,
            st,
        ).1.errors.len(),
    decreases s.len() - st.pos, 1int,
{
    lemma_advance_moves(s, st.pos);
    let t = token_at(s, st.pos);
    let st1 = advance(s, st);
    match t.kind {
        TokenKind::Bang | TokenKind::Minus => {
            lemma_parse_expr(s, st1, Precedence::Prefix);
        },
        TokenKind::LParen => {
            lemma_parse_expr(s, st1, Precedence::Lowest);
            let st2 = parse_expr(s, st1, Precedence::Lowest).1;
            lemma_lex_advances(s, st2.pos);
        },
        _ => {},
    }
}

proof fn lemma_parse_infix_loop(
    s: Seq<char>,
    st: ParseState,
    min: Precedence,
    left: Option<SpecExpr>,
)
    requires
        0 <= st.pos <= s.len(),
    ensures
        step_ok(s, st, parse_infix_loop(s, st, min, left).1),
        !opt_complete(parse_infix_loop(s, st, min, left).0) ==> !opt_complete(left)
            || st.errors.len() < parse_infix_loop(s, st, min, left).1.errors.len(),
    decreases s.len() - st.pos, 0int,
{
    let k = peek_at(s, st.pos).kind;
    if k != TokenKind::SemiColon && rank(min) < rank(precedence_of(k)) && has_infix(k) {
        lemma_advance_moves(s, st.pos);
        let st1 = advance(s, st);
        lemma_parse_infix(s, st1, left);
        let (e, st2) = parse_infix(s, st1, left);
        lemma_parse_infix_loop(s, st2, min, e);
    }
}

proof fn lemma_parse_infix(s: Seq<char>, st: ParseState, left: Option<SpecExpr>)
    requires
        0 <= st.pos <= s.len(),
        has_infix(token_at(s, st.pos).kind),
    ensures
        step_ok(s, st, parse_infix(s, st, left).1),
        !opt_complete(parse_infix(s, st, left).0) ==> !opt_complete(left) || st.errors.len()
            < parse_infix(s, st, left).1.errors.len(),
    decreases s.len() - st.pos, 3int,
{
    lemma_advance_moves(s, st.pos);
    let t = token_at(s, st.pos);
    lemma_parse_expr(s, advance(s, st), precedence_of(t.kind));
}

proof fn lemma_skip_semicolon(s: Seq<char>, st: ParseState)
    requires
        0 <= st.pos <= s.len(),
    ensures
        step_ok(s, st, skip_semicolon(s, st)),
        skip_semicolon(s, st).errors == st.errors,
{
    lemma_lex_advances(s, st.pos);
}

proof fn lemma_parse_stmt(s: Seq<char>, st: ParseState)
    requires
        0 <= st.pos <= s.len(),
    ensures
        step_ok(s, st, parse_stmt(s, st).1),
        match parse_stmt(s, st).0 {
            Some(x) => stmt_complete(x),
            None => false,
        } || st.errors.len() < parse_stmt(s, st).1.errors.len(),
{
    lemma_lex_advances(s, st.pos);
    match token_at(s, st.pos).kind {
        TokenKind::Let => {
            if peek_at(s, st.pos).kind == TokenKind::Ident {
                let st1 = advance(s, st);
                lemma_lex_advances(s, st1.pos);
                if peek_at(s, st1.pos).kind == TokenKind::Assign {
                    let st2 = advance(s, st1);
                    lemma_lex_advances(s, st2.pos);
                    let st3 = advance(s, st2);
                    lemma_parse_expr(s, st3, Precedence::Lowest);
                    lemma_skip_semicolon(s, parse_expr(s, st3, Precedence::Lowest).1);
                }
            }
        },
        TokenKind::Return => {
            let st1 = advance(s, st);
            lemma_parse_expr(s, st1, Precedence::Lowest);
            lemma_skip_semicolon(s, parse_expr(s, st1, Precedence::Lowest).1);
        },
        _ => {
            lemma_parse_expr(s, st, Precedence::Lowest);
            lemma_skip_semicolon(s, parse_expr(s, st, Precedence::Lowest).1);
        },
    }
}

proof fn lemma_parse_stmts(s: Seq<char>, st: ParseState, acc: Seq<SpecStmt>)
    requires
        0 <= st.pos <= s.len(),
    ensures
        st.errors.len() <= parse_stmts(s, st, acc).1.errors.len(),
        (forall|i: int| 0 <= i < acc.len() ==> stmt_complete(#[trigger] acc[i])) && st.errors.len()
            == parse_stmts(s, st, acc).1.errors.len() ==> forall|i: int|
            0 <= i < parse_stmts(s, st, acc).0.len() ==> stmt_complete(
                #[trigger] parse_stmts(s, st, acc).0[i],
            ),
    decreases s.len() - st.pos,
{
    if token_at(s, st.pos).kind != TokenKind::EOF {
        lemma_parse_stmt(s, st);
        let (o, st1) = parse_stmt(s, st);
        let acc1 = match o {
            Some(x) => acc.push(x),
            None => acc,
        };
        let st2 = advance(s, st1);
        lemma_advance_moves(s, st.pos);
        assert(st.pos < st2.pos <= s.len()) by {
            lemma_lex_advances(s, st1.pos);
            if token_at(s, st1.pos).kind == TokenKind::EOF {
                lemma_lex_advances(s, st.pos);
            }
        }
        lemma_parse_stmts(s, st2, acc1);
        if st.errors.len() == parse_stmts(s, st, acc).1.errors.len() {
            assert(st1.errors.len() == st.errors.len());
            if forall|i: int| 0 <= i < acc.len() ==> stmt_complete(#[trigger] acc[i]) {
                assert forall|i: int| 0 <= i < acc1.len() implies stmt_complete(
                    #[trigger] acc1[i],
                ) by {
                    if i < acc.len() {
                        assert(acc1[i] == acc[i]);
                    }
                }
            }
        }
    }
}

/// The parser never leaves an expression slot empty without saying so: a
/// parse of a whole input that records no diagnostic has every statement's
/// expression, and every operand within it, present. So an input in which
/// a token that no prefix handler takes stands where an expression must
/// begin always ends with a non-empty error list.
pub proof fn lemma_clean_parse_is_complete(s: Seq<char>, c: int)
    requires
        0 <= c <= s.len(),
    ensures
        ({
            let (prog, st) = parse_stmts(
                s,
                ParseState { pos: c, errors: Seq::empty() },
                Seq::empty(),
            );
            st.errors.len() == 0 ==> forall|i: int|
                0 <= i < prog.len() ==> stmt_complete(#[trigger] prog[i])
        }),
{
    lemma_parse_stmts(s, ParseState { pos: c, errors: Seq::empty() }, Seq::empty());
}

/// A statement that begins with a token that can begin no expression (and
/// is no `let`, no `return` and not the end of the input) leaves a
/// diagnostic behind, and the parse of the rest goes on to the end.
pub proof fn lemma_missing_prefix_reported(s: Seq<char>, c: int)
    requires
        0 <= c <= s.len(),
        token_at(s, c).kind != TokenKind::Let,
        token_at(s, c).kind != TokenKind::Return,
        token_at(s, c).kind != TokenKind::EOF,
        !has_prefix(token_at(s, c).kind),
    ensures
        parse_stmts(s, ParseState { pos: c, errors: Seq::empty() }, Seq::empty()).1.errors.len()
            > 0,
{
    let st = ParseState { pos: c, errors: Seq::empty() };
    lemma_parse_stmt(s, st);
    let (o, st1) = parse_stmt(s, st);
    lemma_lex_advances(s, st.pos);
    lemma_skip_semicolon(s, record(st, no_prefix_msg(token_at(s, c).kind)));
    assert(st1.errors.len() == 1);
    let acc1: Seq<SpecStmt> = match o {
        Some(x) => Seq::empty().push(x),
        None => Seq::empty(),
    };
    let st2 = advance(s, st1);
    lemma_advance_moves(s, st.pos);
    lemma_lex_advances(s, st1.pos);
    assert(st.pos < st2.pos <= s.len());
    lemma_parse_stmts(s, st2, acc1);
}

} // verus!
