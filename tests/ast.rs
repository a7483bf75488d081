use monkey::ast::{
    Boolean, Expression, ExpressionStatement, Identifier, InfixExpression, IntegerLiteral,
    LetStatement, Node, PrefixExpression, Program, ReturnStatement, Statement,
};
use monkey::token::{Token, TokenKind};

#[test]
fn test_string() {
    let program = Program {
        statements: vec![Statement::LetStatement(LetStatement::new(
            Token::new(TokenKind::Let, "let"),
            Identifier::new(Token::new(TokenKind::Ident, "myVar"), "myVar"),
            Some(Expression::Identifier(Identifier::new(
                Token::new(TokenKind::Ident, "anotherVar"),
                "anotherVar",
            ))),
        ))],
    };

    assert_eq!(program.to_string(), "let myVar = anotherVar;");
}

#[test]
fn empty_program_renders_as_nothing() {
    let program = Program { statements: vec![] };
    assert_eq!(program.to_string(), "");
    assert_eq!(program.token_literal(), "");
}

#[test]
fn program_literal_is_first_statement_literal() {
    let program = Program {
        statements: vec![
            Statement::ReturnStatement(ReturnStatement::new(
                Token::new(TokenKind::Return, "return"),
                None,
            )),
            Statement::ExpressionStatement(ExpressionStatement::new(
                Token::new(TokenKind::Int, "7"),
                Some(Expression::IntegerLiteral(IntegerLiteral::new(
                    Token::new(TokenKind::Int, "7"),
                    7,
                ))),
            )),
        ],
    };
    assert_eq!(program.token_literal(), "return");
    assert_eq!(program.to_string(), "return ;7");
}

#[test]
fn composite_expressions_are_parenthesised() {
    let minus = PrefixExpression::new(
        Token::new(TokenKind::Minus, "-"),
        "-",
        Some(Expression::Identifier(Identifier::new(Token::new(TokenKind::Ident, "a"), "a"))),
    );
    assert_eq!(minus.to_string(), "(-a)");
    let sum = InfixExpression::new(
        Token::new(TokenKind::Plus, "+"),
        Some(Expression::PrefixExpression(minus)),
        "+",
        Some(Expression::Boolean(Boolean::new(Token::new(TokenKind::True, "true"), true))),
    );
    assert_eq!(sum.token_literal(), "+");
    assert_eq!(sum.to_string(), "((-a) + true)");
    let missing = InfixExpression::new(Token::new(TokenKind::Slash, "/"), None, "/", None);
    assert_eq!(missing.to_string(), "( / )");
}

#[test]
fn checked_conversions_match_the_variant() {
    let e = Expression::Boolean(Boolean::new(Token::new(TokenKind::False, "false"), false));
    let as_ident: Result<Identifier, ()> = (&e).try_into();
    assert!(as_ident.is_err());
    let as_bool: Result<Boolean, ()> = (&e).try_into();
    assert_eq!(as_bool.unwrap().value, false);
    let owned: Result<Boolean, ()> = e.try_into();
    assert!(owned.is_ok());

    let s = Statement::ReturnStatement(ReturnStatement::new(
        Token::new(TokenKind::Return, "return"),
        None,
    ));
    let as_let: Result<LetStatement, ()> = (&s).try_into();
    assert!(as_let.is_err());
    let as_return: Result<ReturnStatement, ()> = s.try_into();
    assert_eq!(as_return.unwrap().token.literal, "return");
}
