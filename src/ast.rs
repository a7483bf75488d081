//! The syntax tree, its mathematical model, and its canonical rendering.

use crate::token::{SpecToken, Token};
use vstd::prelude::*;
use vstd::string::*;

verus! {

/// The mathematical value of an expression node.
pub enum SpecExpr {
    Ident { token: SpecToken, value: Seq<char> },
    Int { token: SpecToken, value: int },
    Prefix { token: SpecToken, operator: Seq<char>, right: Option<Box<SpecExpr>> },
    Infix {
        token: SpecToken,
        left: Option<Box<SpecExpr>>,
        operator: Seq<char>,
        right: Option<Box<SpecExpr>>,
    },
    Bool { token: SpecToken, value: bool },
}

/// The mathematical value of a statement node.
pub enum SpecStmt {
    Let { token: SpecToken, name_token: SpecToken, name: Seq<char>, value: Option<SpecExpr> },
    Return { token: SpecToken, value: Option<SpecExpr> },
    Expr { token: SpecToken, expression: Option<SpecExpr> },
}

impl SpecExpr {
    /// The token that the node was built from.
    pub open spec fn token(self) -> SpecToken {
        match self {
            SpecExpr::Ident { token, .. } => token,
            SpecExpr::Int { token, .. } => token,
            SpecExpr::Prefix { token, .. } => token,
            SpecExpr::Infix { token, .. } => token,
            SpecExpr::Bool { token, .. } => token,
        }
    }
}

impl SpecStmt {
    /// The token that the statement was built from.
    pub open spec fn token(self) -> SpecToken {
        match self {
            SpecStmt::Let { token, .. } => token,
            SpecStmt::Return { token, .. } => token,
            SpecStmt::Expr { token, .. } => token,
        }
    }
}

/// The canonical rendering of an expression: every prefix and infix
/// expression is wrapped in parentheses, and a missing operand renders as
/// nothing.
pub open spec fn expr_str(e: SpecExpr) -> Seq<char>
    decreases e,
{
    match e {
        SpecExpr::Ident { value, .. } => value,
        SpecExpr::Int { token, .. } => token.literal,
        SpecExpr::Bool { token, .. } => token.literal,
        SpecExpr::Prefix { operator, right, .. } => {
            let r = match right {
                Some(b) => expr_str(*b),
                None => Seq::empty(),
            };
            "("@ + operator + r + ")"@
        },
        SpecExpr::Infix { left, operator, right, .. } => {
            let l = match left {
                Some(b) => expr_str(*b),
                None => Seq::empty(),
            };
            let r = match right {
                Some(b) => expr_str(*b),
                None => Seq::empty(),
            };
            "("@ + l + " "@ + operator + " "@ + r + ")"@
        },
    }
}

/// The rendering of an optional expression: nothing where it is missing.
pub open spec fn opt_expr_str(e: Option<SpecExpr>) -> Seq<char> {
    match e {
        Some(x) => expr_str(x),
        None => Seq::empty(),
    }
}

/// The rendering of a statement, which mirrors the surface syntax:
/// `let <name> = <value>;`, `return <value>;`, or the bare expression.
pub open spec fn stmt_str(s: SpecStmt) -> Seq<char> {
    match s {
        SpecStmt::Let { token, name, value, .. } => token.literal + " "@ + name + " = "@
            + opt_expr_str(value) + ";"@,
        SpecStmt::Return { token, value } => token.literal + " "@ + opt_expr_str(value) + ";"@,
        SpecStmt::Expr { expression, .. } => opt_expr_str(expression),
    }
}

/// The rendering of a program: its statements' renderings, in order, with
/// no separator.
pub open spec fn program_str(ss: Seq<SpecStmt>) -> Seq<char>
    decreases ss.len(),
{
    if ss.len() == 0 {
        Seq::empty()
    } else {
        program_str(ss.drop_last()) + stmt_str(ss.last())
    }
}

/// The literal of a program's first statement's token, or nothing for an
/// empty program.
pub open spec fn program_literal(ss: Seq<SpecStmt>) -> Seq<char> {
    if ss.len() == 0 {
        Seq::empty()
    } else {
        ss[0].token().literal
    }
}

/// Every node of the syntax tree: the literal of the token it was built
/// from, and its canonical rendering.
pub trait Node {
    /// The literal of the token the node was built from.
    spec fn token_text(&self) -> Seq<char>;

    /// The node's canonical rendering.
    spec fn text(&self) -> Seq<char>;

    fn token_literal(&self) -> (r: String)
        ensures
            r@ == self.token_text(),
    ;

    fn to_string(&self) -> (r: String)
        ensures
            r@ == self.text(),
    ;
}

/// An expression of the language.
#[derive(Debug, PartialEq, Eq)]
pub enum Expression {
    Identifier(Identifier),
    IntegerLiteral(IntegerLiteral),
    PrefixExpression(PrefixExpression),
    InfixExpression(InfixExpression),
    Boolean(Boolean),
}

/// A statement of the language.
#[derive(Debug, PartialEq, Eq)]
pub enum Statement {
    LetStatement(LetStatement),
    ReturnStatement(ReturnStatement),
    ExpressionStatement(ExpressionStatement),
}

/// The root of the tree: the statements in program order.
#[derive(Debug, PartialEq, Eq)]
pub struct Program {
    pub statements: Vec<Statement>,
}

/// `let <name> = <value>;`
#[derive(Debug, PartialEq, Eq)]
pub struct LetStatement {
    pub token: Token,
    pub name: Box<Identifier>,
    pub value: Option<Expression>,
}

/// `return <value>;`
#[derive(Debug, PartialEq, Eq)]
pub struct ReturnStatement {
    pub token: Token,
    pub return_value: Option<Expression>,
}

/// An expression standing as a statement.
#[derive(Debug, PartialEq, Eq)]
pub struct ExpressionStatement {
    pub token: Token,
    pub expression: Option<Expression>,
}

/// A name.
#[derive(Debug, PartialEq, Eq, Clone)]
pub struct Identifier {
    pub token: Token,
    pub value: String,
}

/// A 64-bit signed integer literal.
#[derive(Debug, PartialEq, Eq, Clone)]
pub struct IntegerLiteral {
    pub token: Token,
    pub value: i64,
}

/// An operator applied to the expression after it.
#[derive(Debug, PartialEq, Eq)]
pub struct PrefixExpression {
    pub token: Token,
    pub operator: String,
    pub right: Option<Box<Expression>>,
}

/// A binary operator between two expressions.
#[derive(Debug, PartialEq, Eq)]
pub struct InfixExpression {
    pub token: Token,
    pub left: Option<Box<Expression>>,
    pub operator: String,
    pub right: Option<Box<Expression>>,
}

/// `true` or `false`.
#[derive(Debug, PartialEq, Eq, Clone)]
pub struct Boolean {
    pub token: Token,
    pub value: bool,
}

/// The mathematical value of an expression tree.
pub open spec fn expr_model(e: Expression) -> SpecExpr
    decreases e,
{
    match e {
        Expression::Identifier(i) => SpecExpr::Ident { token: i.token@, value: i.value@ },
        Expression::IntegerLiteral(i) => SpecExpr::Int { token: i.token@, value: i.value as int },
        Expression::Boolean(b) => SpecExpr::Bool { token: b.token@, value: b.value },
        Expression::PrefixExpression(p) => SpecExpr::Prefix {
            token: p.token@,
            operator: p.operator@,
            right: match p.right {
                Some(r) => Some(Box::new(expr_model(*r))),
                None => None,
            },
        },
        Expression::InfixExpression(x) => SpecExpr::Infix {
            token: x.token@,
            left: match x.left {
                Some(l) => Some(Box::new(expr_model(*l))),
                None => None,
            },
            operator: x.operator@,
            right: match x.right {
                Some(r) => Some(Box::new(expr_model(*r))),
                None => None,
            },
        },
    }
}

/// The mathematical value of an optional expression.
pub open spec fn opt_model(e: Option<Expression>) -> Option<SpecExpr> {
    match e {
        Some(x) => Some(expr_model(x)),
        None => None,
    }
}

impl View for Expression {
    type V = SpecExpr;

    open spec fn view(&self) -> SpecExpr {
        expr_model(*self)
    }
}

/// The mathematical value of a statement.
pub open spec fn stmt_model(s: Statement) -> SpecStmt {
    match s {
        Statement::LetStatement(l) => SpecStmt::Let {
            token: l.token@,
            name_token: l.name.token@,
            name: l.name.value@,
            value: opt_model(l.value),
        },
        Statement::ReturnStatement(r) => SpecStmt::Return {
            token: r.token@,
            value: opt_model(r.return_value),
        },
        Statement::ExpressionStatement(e) => SpecStmt::Expr {
            token: e.token@,
            expression: opt_model(e.expression),
        },
    }
}

/// The mathematical value of an optional statement.
pub open spec fn opt_stmt_model(s: Option<Statement>) -> Option<SpecStmt> {
    match s {
        Some(x) => Some(stmt_model(x)),
        None => None,
    }
}

impl View for Statement {
    type V = SpecStmt;

    open spec fn view(&self) -> SpecStmt {
        stmt_model(*self)
    }
}

impl View for Program {
    type V = Seq<SpecStmt>;

    open spec fn view(&self) -> Seq<SpecStmt> {
        self.statements@.map_values(|s: Statement| s@)
    }
}

impl View for LetStatement {
    type V = SpecStmt;

    open spec fn view(&self) -> SpecStmt {
        stmt_model(Statement::LetStatement(*self))
    }
}

impl View for ReturnStatement {
    type V = SpecStmt;

    open spec fn view(&self) -> SpecStmt {
        stmt_model(Statement::ReturnStatement(*self))
    }
}

impl View for ExpressionStatement {
    type V = SpecStmt;

    open spec fn view(&self) -> SpecStmt {
        stmt_model(Statement::ExpressionStatement(*self))
    }
}

impl View for Identifier {
    type V = SpecExpr;

    open spec fn view(&self) -> SpecExpr {
        expr_model(Expression::Identifier(*self))
    }
}

impl View for IntegerLiteral {
    type V = SpecExpr;

    open spec fn view(&self) -> SpecExpr {
        expr_model(Expression::IntegerLiteral(*self))
    }
}

impl View for PrefixExpression {
    type V = SpecExpr;

    open spec fn view(&self) -> SpecExpr {
        expr_model(Expression::PrefixExpression(*self))
    }
}

impl View for InfixExpression {
    type V = SpecExpr;

    open spec fn view(&self) -> SpecExpr {
        expr_model(Expression::InfixExpression(*self))
    }
}

impl View for Boolean {
    type V = SpecExpr;

    open spec fn view(&self) -> SpecExpr {
        expr_model(Expression::Boolean(*self))
    }
}

/// `(<operator><right>)`
fn prefix_text(operator: &String, right: String) -> (r: String)
    ensures
        r@ == "("@ + operator@ + right@ + ")"@,
{
    let mut s = String::from_str("(");
    s.append(operator.as_str());
    s.append(right.as_str());
    s.append(")");
    s
}

/// `(<left> <operator> <right>)`
fn infix_text(left: String, operator: &String, right: String) -> (r: String)
    ensures
        r@ == "("@ + left@ + " "@ + operator@ + " "@ + right@ + ")"@,
{
    let mut s = String::from_str("(");
    s.append(left.as_str());
    s.append(" ");
    s.append(operator.as_str());
    s.append(" ");
    s.append(right.as_str());
    s.append(")");
    s
}

/// Renders an expression tree.
fn expression_text(e: &Expression) -> (r: String)
    ensures
        r@ == expr_str(e@),
    decreases e,
{
    match e {
        Expression::Identifier(i) => i.value.clone(),
        Expression::IntegerLiteral(i) => i.token.literal.clone(),
        Expression::Boolean(b) => b.token.literal.clone(),
        Expression::PrefixExpression(p) => {
            let right = match &p.right {
                Some(x) => expression_text(x),
                None => String::new(),
            };
            prefix_text(&p.operator, right)
        },
        Expression::InfixExpression(x) => {
            let left = match &x.left {
                Some(l) => expression_text(l),
                None => String::new(),
            };
            let right = match &x.right {
                Some(r) => expression_text(r),
                None => String::new(),
            };
            infix_text(left, &x.operator, right)
        },
    }
}

/// Renders an optional expression; a missing one renders as nothing.
fn optional_text(e: &Option<Expression>) -> (r: String)
    ensures
        r@ == opt_expr_str(opt_model(*e)),
{
    match e {
        Some(x) => expression_text(x),
        None => String::new(),
    }
}

/// A copy of an expression tree, equal to it.
fn copy_expression(e: &Expression) -> (r: Expression)
    ensures
        r == *e,
    decreases e,
{
    match e {
        Expression::Identifier(i) => Expression::Identifier(
            Identifier { token: i.token.duplicate(), value: i.value.clone() },
        ),
        Expression::IntegerLiteral(i) => Expression::IntegerLiteral(
            IntegerLiteral { token: i.token.duplicate(), value: i.value },
        ),
        Expression::Boolean(b) => Expression::Boolean(
            Boolean { token: b.token.duplicate(), value: b.value },
        ),
        Expression::PrefixExpression(p) => {
            let right = match &p.right {
                Some(x) => Some(Box::new(copy_expression(x))),
                None => None,
            };
            Expression::PrefixExpression(
                PrefixExpression { token: p.token.duplicate(), operator: p.operator.clone(), right },
            )
        },
        Expression::InfixExpression(x) => {
            let left = match &x.left {
                Some(l) => Some(Box::new(copy_expression(l))),
                None => None,
            };
            let right = match &x.right {
                Some(r) => Some(Box::new(copy_expression(r))),
                None => None,
            };
            Expression::InfixExpression(
                InfixExpression {
                    token: x.token.duplicate(),
                    left,
                    operator: x.operator.clone(),
                    right,
                },
            )
        },
    }
}

/// A copy of an optional expression, equal to it.
fn copy_optional(e: &Option<Expression>) -> (r: Option<Expression>)
    ensures
        r == *e,
{
    match e {
        Some(x) => Some(copy_expression(x)),
        None => None,
    }
}

impl Node for Expression {
    open spec fn token_text(&self) -> Seq<char> {
        self@.token().literal
    }

    open spec fn text(&self) -> Seq<char> {
        expr_str(self@)
    }

    fn token_literal(&self) -> (r: String) {
        match self {
            Expression::Identifier(i) => i.token.literal.clone(),
            Expression::IntegerLiteral(i) => i.token.literal.clone(),
            Expression::PrefixExpression(p) => p.token.literal.clone(),
            Expression::InfixExpression(x) => x.token.literal.clone(),
            Expression::Boolean(b) => b.token.literal.clone(),
        }
    }

    fn to_string(&self) -> (r: String) {
        expression_text(self)
    }
}

impl Node for Identifier {
    open spec fn token_text(&self) -> Seq<char> {
        self.token.literal@
    }

    open spec fn text(&self) -> Seq<char> {
        expr_str(self@)
    }

    fn token_literal(&self) -> (r: String) {
        self.token.literal.clone()
    }

    fn to_string(&self) -> (r: String) {
        self.value.clone()
    }
}

impl Node for IntegerLiteral {
    open spec fn token_text(&self) -> Seq<char> {
        self.token.literal@
    }

    open spec fn text(&self) -> Seq<char> {
        expr_str(self@)
    }

    fn token_literal(&self) -> (r: String) {
        self.token.literal.clone()
    }

    fn to_string(&self) -> (r: String) {
        self.token.literal.clone()
    }
}

impl Node for Boolean {
    open spec fn token_text(&self) -> Seq<char> {
        self.token.literal@
    }

    open spec fn text(&self) -> Seq<char> {
        expr_str(self@)
    }

    fn token_literal(&self) -> (r: String) {
        self.token.literal.clone()
    }

    fn to_string(&self) -> (r: String) {
        self.token.literal.clone()
    }
}

impl Node for PrefixExpression {
    open spec fn token_text(&self) -> Seq<char> {
        self.token.literal@
    }

    open spec fn text(&self) -> Seq<char> {
        expr_str(self@)
    }

    fn token_literal(&self) -> (r: String) {
        self.token.literal.clone()
    }

    fn to_string(&self) -> (r: String) {
        let right = match &self.right {
            Some(x) => expression_text(x),
            None => String::new(),
        };
        prefix_text(&self.operator, right)
    }
}

impl Node for InfixExpression {
    open spec fn token_text(&self) -> Seq<char> {
        self.token.literal@
    }

    open spec fn text(&self) -> Seq<char> {
        expr_str(self@)
    }

    fn token_literal(&self) -> (r: String) {
        self.token.literal.clone()
    }

    fn to_string(&self) -> (r: String) {
        let left = match &self.left {
            Some(l) => expression_text(l),
            None => String::new(),
        };
        let right = match &self.right {
            Some(x) => expression_text(x),
            None => String::new(),
        };
        infix_text(left, &self.operator, right)
    }
}

impl Node for LetStatement {
    open spec fn token_text(&self) -> Seq<char> {
        self.token.literal@
    }

    open spec fn text(&self) -> Seq<char> {
        stmt_str(self@)
    }

    fn token_literal(&self) -> (r: String) {
        self.token.literal.clone()
    }

    fn to_string(&self) -> (r: String) {
        let mut s = self.token.literal.clone();
        s.append(" ");
        s.append(self.name.value.as_str());
        s.append(" = ");
        let value = optional_text(&self.value);
        s.append(value.as_str());
        s.append(";");
        s
    }
}

impl Node for ReturnStatement {
    open spec fn token_text(&self) -> Seq<char> {
        self.token.literal@
    }

    open spec fn text(&self) -> Seq<char> {
        stmt_str(self@)
    }

    fn token_literal(&self) -> (r: String) {
        self.token.literal.clone()
    }

    fn to_string(&self) -> (r: String) {
        let mut s = self.token.literal.clone();
        s.append(" ");
        let value = optional_text(&self.return_value);
        s.append(value.as_str());
        s.append(";");
        s
    }
}

impl Node for ExpressionStatement {
    open spec fn token_text(&self) -> Seq<char> {
        self.token.literal@
    }

    open spec fn text(&self) -> Seq<char> {
        stmt_str(self@)
    }

    fn token_literal(&self) -> (r: String) {
        self.token.literal.clone()
    }

    fn to_string(&self) -> (r: String) {
        optional_text(&self.expression)
    }
}

impl Node for Statement {
    open spec fn token_text(&self) -> Seq<char> {
        self@.token().literal
    }

    open spec fn text(&self) -> Seq<char> {
        stmt_str(self@)
    }

    fn token_literal(&self) -> (r: String) {
        match self {
            Statement::LetStatement(s) => s.token_literal(),
            Statement::ReturnStatement(s) => s.token_literal(),
            Statement::ExpressionStatement(s) => s.token_literal(),
        }
    }

    fn to_string(&self) -> (r: String) {
        match self {
            Statement::LetStatement(s) => s.to_string(),
            Statement::ReturnStatement(s) => s.to_string(),
            Statement::ExpressionStatement(s) => s.to_string(),
        }
    }
}

impl Node for Program {
    open spec fn token_text(&self) -> Seq<char> {
        program_literal(self@)
    }

    open spec fn text(&self) -> Seq<char> {
        program_str(self@)
    }

    fn token_literal(&self) -> (r: String) {
        if self.statements.len() == 0 {
            String::new()
        } else {
            self.statements[0].token_literal()
        }
    }

    fn to_string(&self) -> (r: String) {
        let mut s = String::new();
        let mut i: usize = 0;
        while i < self.statements.len()
            invariant
                i <= self.statements@.len(),
                s@ == program_str(self@.subrange(0, i as int)),
            decreases self.statements@.len() - i,
        {
            let part = self.statements[i].to_string();
            proof {
                let pre = self@.subrange(0, i + 1);
                assert(pre.drop_last() =~= self@.subrange(0, i as int));
            }
            s.append(part.as_str());
            i = i + 1;
        }
        proof {
            assert(self@.subrange(0, i as int) =~= self@);
        }
        s
    }
}

impl LetStatement {
    pub fn new(token: Token, name: Identifier, value: Option<Expression>) -> (r: LetStatement)
        ensures
            r.token == token,
            *r.name == name,
            r.value == value,
    {
        LetStatement { token, name: Box::new(name), value }
    }
}

impl ReturnStatement {
    pub fn new(token: Token, return_value: Option<Expression>) -> (r: ReturnStatement)
        ensures
            r.token == token,
            r.return_value == return_value,
    {
        ReturnStatement { token, return_value }
    }
}

impl ExpressionStatement {
    pub fn new(token: Token, expression: Option<Expression>) -> (r: ExpressionStatement)
        ensures
            r.token == token,
            r.expression == expression,
    {
        ExpressionStatement { token, expression }
    }
}

impl Identifier {
    pub fn new(token: Token, value: &str) -> (r: Identifier)
        ensures
            r.token == token,
            r.value@ == value@,
    {
        Identifier { token, value: String::from_str(value) }
    }
}

impl IntegerLiteral {
    pub fn new(token: Token, value: i64) -> (r: IntegerLiteral)
        ensures
            r.token == token,
            r.value == value,
    {
        IntegerLiteral { token, value }
    }
}

impl PrefixExpression {
    pub fn new(token: Token, operator: &str, right: Option<Expression>) -> (r: PrefixExpression)
        ensures
            r.token == token,
            r.operator@ == operator@,
            r.right == match right {
                Some(e) => Some(Box::new(e)),
                None => None,
            },
    {
        let right = match right {
            Some(e) => Some(Box::new(e)),
            None => None,
        };
        PrefixExpression { token, operator: String::from_str(operator), right }
    }
}

impl InfixExpression {
    pub fn new(
        token: Token,
        left: Option<Expression>,
        operator: &str,
        right: Option<Expression>,
    ) -> (r: InfixExpression)
        ensures
            r.token == token,
            r.left == match left {
                Some(e) => Some(Box::new(e)),
                None => None,
            },
            r.operator@ == operator@,
            r.right == match right {
                Some(e) => Some(Box::new(e)),
                None => None,
            },
    {
        let left = match left {
            Some(e) => Some(Box::new(e)),
            None => None,
        };
        let right = match right {
            Some(e) => Some(Box::new(e)),
            None => None,
        };
        InfixExpression { token, left, operator: String::from_str(operator), right }
    }
}

impl Boolean {
    pub fn new(token: Token, value: bool) -> (r: Boolean)
        ensures
            r.token == token,
            r.value == value,
    {
        Boolean { token, value }
    }
}

/// A copy of a statement, equal to it.
fn copy_statement(s: &Statement) -> (r: Statement)
    ensures
        r == *s,
{
    match s {
        Statement::LetStatement(l) => Statement::LetStatement(
            LetStatement {
                token: l.token.duplicate(),
                name: Box::new(
                    Identifier { token: l.name.token.duplicate(), value: l.name.value.clone() },
                ),
                value: copy_optional(&l.value),
            },
        ),
        Statement::ReturnStatement(r) => Statement::ReturnStatement(
            ReturnStatement { token: r.token.duplicate(), return_value: copy_optional(&r.return_value) },
        ),
        Statement::ExpressionStatement(e) => Statement::ExpressionStatement(
            ExpressionStatement { token: e.token.duplicate(), expression: copy_optional(&e.expression) },
        ),
    }
}

impl TryFrom<Statement> for LetStatement {
    type Error = ();

    fn try_from(node: Statement) -> (r: Result<LetStatement, ()>) {
        match node {
            Statement::LetStatement(x) => Ok(x),
            _ => Err(()),
        }
    }
}

impl vstd::std_specs::convert::TryFromSpecImpl<Statement> for LetStatement {
    open spec fn obeys_try_from_spec() -> bool {
        true
    }

    open spec fn try_from_spec(node: Statement) -> Result<LetStatement, ()> {
        match node {
            Statement::LetStatement(x) => Ok(x),
            _ => Err(()),
        }
    }
}

impl TryFrom<&Statement> for LetStatement {
    type Error = ();

    fn try_from(node: &Statement) -> (r: Result<LetStatement, ()>) {
        match copy_statement(node) {
            Statement::LetStatement(x) => Ok(x),
            _ => Err(()),
        }
    }
}

impl vstd::std_specs::convert::TryFromSpecImpl<&Statement> for LetStatement {
    open spec fn obeys_try_from_spec() -> bool {
        true
    }

    open spec fn try_from_spec(node: &Statement) -> Result<LetStatement, ()> {
        match *node {
            Statement::LetStatement(x) => Ok(x),
            _ => Err(()),
        }
    }
}

impl TryFrom<Statement> for ReturnStatement {
    type Error = ();

    fn try_from(node: Statement) -> (r: Result<ReturnStatement, ()>) {
        match node {
            Statement::ReturnStatement(x) => Ok(x),
            _ => Err(()),
        }
    }
}

impl vstd::std_specs::convert::TryFromSpecImpl<Statement> for ReturnStatement {
    open spec fn obeys_try_from_spec() -> bool {
        true
    }

    open spec fn try_from_spec(node: Statement) -> Result<ReturnStatement, ()> {
        match node {
            Statement::ReturnStatement(x) => Ok(x),
            _ => Err(()),
        }
    }
}

impl TryFrom<&Statement> for ReturnStatement {
    type Error = ();

    fn try_from(node: &Statement) -> (r: Result<ReturnStatement, ()>) {
        match copy_statement(node) {
            Statement::ReturnStatement(x) => Ok(x),
            _ => Err(()),
        }
    }
}

impl vstd::std_specs::convert::TryFromSpecImpl<&Statement> for ReturnStatement {
    open spec fn obeys_try_from_spec() -> bool {
        true
    }

    open spec fn try_from_spec(node: &Statement) -> Result<ReturnStatement, ()> {
        match *node {
            Statement::ReturnStatement(x) => Ok(x),
            _ => Err(()),
        }
    }
}

impl TryFrom<Statement> for ExpressionStatement {
    type Error = ();

    fn try_from(node: Statement) -> (r: Result<ExpressionStatement, ()>) {
        match node {
            Statement::ExpressionStatement(x) => Ok(x),
            _ => Err(()),
        }
    }
}

impl vstd::std_specs::convert::TryFromSpecImpl<Statement> for ExpressionStatement {
    open spec fn obeys_try_from_spec() -> bool {
        true
    }

    open spec fn try_from_spec(node: Statement) -> Result<ExpressionStatement, ()> {
        match node {
            Statement::ExpressionStatement(x) => Ok(x),
            _ => Err(()),
        }
    }
}

impl TryFrom<&Statement> for ExpressionStatement {
    type Error = ();

    fn try_from(node: &Statement) -> (r: Result<ExpressionStatement, ()>) {
        match copy_statement(node) {
            Statement::ExpressionStatement(x) => Ok(x),
            _ => Err(()),
        }
    }
}

impl vstd::std_specs::convert::TryFromSpecImpl<&Statement> for ExpressionStatement {
    open spec fn obeys_try_from_spec() -> bool {
        true
    }

    open spec fn try_from_spec(node: &Statement) -> Result<ExpressionStatement, ()> {
        match *node {
            Statement::ExpressionStatement(x) => Ok(x),
            _ => Err(()),
        }
    }
}

impl TryFrom<Expression> for Identifier {
    type Error = ();

    fn try_from(node: Expression) -> (r: Result<Identifier, ()>) {
        match node {
            Expression::Identifier(x) => Ok(x),
            _ => Err(()),
        }
    }
}

impl vstd::std_specs::convert::TryFromSpecImpl<Expression> for Identifier {
    open spec fn obeys_try_from_spec() -> bool {
        true
    }

    open spec fn try_from_spec(node: Expression) -> Result<Identifier, ()> {
        match node {
            Expression::Identifier(x) => Ok(x),
            _ => Err(()),
        }
    }
}

impl TryFrom<&Expression> for Identifier {
    type Error = ();

    fn try_from(node: &Expression) -> (r: Result<Identifier, ()>) {
        match copy_expression(node) {
            Expression::Identifier(x) => Ok(x),
            _ => Err(()),
        }
    }
}

impl vstd::std_specs::convert::TryFromSpecImpl<&Expression> for Identifier {
    open spec fn obeys_try_from_spec() -> bool {
        true
    }

    open spec fn try_from_spec(node: &Expression) -> Result<Identifier, ()> {
        match *node {
            Expression::Identifier(x) => Ok(x),
            _ => Err(()),
        }
    }
}

impl TryFrom<Expression> for IntegerLiteral {
    type Error = ();

    fn try_from(node: Expression) -> (r: Result<IntegerLiteral, ()>) {
        match node {
            Expression::IntegerLiteral(x) => Ok(x),
            _ => Err(()),
        }
    }
}

impl vstd::std_specs::convert::TryFromSpecImpl<Expression> for IntegerLiteral {
    open spec fn obeys_try_from_spec() -> bool {
        true
    }

    open spec fn try_from_spec(node: Expression) -> Result<IntegerLiteral, ()> {
        match node {
            Expression::IntegerLiteral(x) => Ok(x),
            _ => Err(()),
        }
    }
}

impl TryFrom<&Expression> for IntegerLiteral {
    type Error = ();

    fn try_from(node: &Expression) -> (r: Result<IntegerLiteral, ()>) {
        match copy_expression(node) {
            Expression::IntegerLiteral(x) => Ok(x),
            _ => Err(()),
        }
    }
}

impl vstd::std_specs::convert::TryFromSpecImpl<&Expression> for IntegerLiteral {
    open spec fn obeys_try_from_spec() -> bool {
        true
    }

    open spec fn try_from_spec(node: &Expression) -> Result<IntegerLiteral, ()> {
        match *node {
            Expression::IntegerLiteral(x) => Ok(x),
            _ => Err(()),
        }
    }
}

impl TryFrom<Expression> for PrefixExpression {
    type Error = ();

    fn try_from(node: Expression) -> (r: Result<PrefixExpression, ()>) {
        match node {
            Expression::PrefixExpression(x) => Ok(x),
            _ => Err(()),
        }
    }
}

impl vstd::std_specs::convert::TryFromSpecImpl<Expression> for PrefixExpression {
    open spec fn obeys_try_from_spec() -> bool {
        true
    }

    open spec fn try_from_spec(node: Expression) -> Result<PrefixExpression, ()> {
        match node {
            Expression::PrefixExpression(x) => Ok(x),
            _ => Err(()),
        }
    }
}

impl TryFrom<&Expression> for PrefixExpression {
    type Error = ();

    fn try_from(node: &Expression) -> (r: Result<PrefixExpression, ()>) {
        match copy_expression(node) {
            Expression::PrefixExpression(x) => Ok(x),
            _ => Err(()),
        }
    }
}

impl vstd::std_specs::convert::TryFromSpecImpl<&Expression> for PrefixExpression {
    open spec fn obeys_try_from_spec() -> bool {
        true
    }

    open spec fn try_from_spec(node: &Expression) -> Result<PrefixExpression, ()> {
        match *node {
            Expression::PrefixExpression(x) => Ok(x),
            _ => Err(()),
        }
    }
}

impl TryFrom<Expression> for InfixExpression {
    type Error = ();

    fn try_from(node: Expression) -> (r: Result<InfixExpression, ()>) {
        match node {
            Expression::InfixExpression(x) => Ok(x),
            _ => Err(()),
        }
    }
}

impl vstd::std_specs::convert::TryFromSpecImpl<Expression> for InfixExpression {
    open spec fn obeys_try_from_spec() -> bool {
        true
    }

    open spec fn try_from_spec(node: Expression) -> Result<InfixExpression, ()> {
        match node {
            Expression::InfixExpression(x) => Ok(x),
            _ => Err(()),
        }
    }
}

impl TryFrom<&Expression> for InfixExpression {
    type Error = ();

    fn try_from(node: &Expression) -> (r: Result<InfixExpression, ()>) {
        match copy_expression(node) {
            Expression::InfixExpression(x) => Ok(x),
            _ => Err(()),
        }
    }
}

impl vstd::std_specs::convert::TryFromSpecImpl<&Expression> for InfixExpression {
    open spec fn obeys_try_from_spec() -> bool {
        true
    }

    open spec fn try_from_spec(node: &Expression) -> Result<InfixExpression, ()> {
        match *node {
            Expression::InfixExpression(x) => Ok(x),
            _ => Err(()),
        }
    }
}

impl TryFrom<Expression> for Boolean {
    type Error = ();

    fn try_from(node: Expression) -> (r: Result<Boolean, ()>) {
        match node {
            Expression::Boolean(x) => Ok(x),
            _ => Err(()),
        }
    }
}

impl vstd::std_specs::convert::TryFromSpecImpl<Expression> for Boolean {
    open spec fn obeys_try_from_spec() -> bool {
        true
    }

    open spec fn try_from_spec(node: Expression) -> Result<Boolean, ()> {
        match node {
            Expression::Boolean(x) => Ok(x),
            _ => Err(()),
        }
    }
}

impl TryFrom<&Expression> for Boolean {
    type Error = ();

    fn try_from(node: &Expression) -> (r: Result<Boolean, ()>) {
        match copy_expression(node) {
            Expression::Boolean(x) => Ok(x),
            _ => Err(()),
        }
    }
}

impl vstd::std_specs::convert::TryFromSpecImpl<&Expression> for Boolean {
    open spec fn obeys_try_from_spec() -> bool {
        true
    }

    open spec fn try_from_spec(node: &Expression) -> Result<Boolean, ()> {
        match *node {
            Expression::Boolean(x) => Ok(x),
            _ => Err(()),
        }
    }
}

} // verus!
