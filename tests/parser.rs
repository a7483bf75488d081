use monkey::ast::{
    Boolean, Expression, ExpressionStatement, Identifier, InfixExpression, IntegerLiteral,
    LetStatement, Node, PrefixExpression, Statement,
};
use monkey::lexer::Lexer;
use monkey::parser::Parser;

enum Lit<'a> {
    Int(i64),
    Ident(&'a str),
    Bool(bool),
}

fn test_let_statement(s: &Statement, name: &str) {
    assert_eq!(s.token_literal(), "let");

    assert!(matches!(s, Statement::LetStatement(_)));
    let let_stmt: LetStatement = s.try_into().unwrap();

    assert_eq!(let_stmt.name.value, name);
    assert_eq!(let_stmt.name.token_literal(), name);
}

fn test_integer_literal(il: Expression, value: i64) {
    assert!(matches!(il, Expression::IntegerLiteral(_)));
    let int: IntegerLiteral = il.try_into().unwrap();
    assert_eq!(int.value, value);
    assert_eq!(int.token_literal(), value.to_string());
}

fn test_identifier(exp: Expression, value: String) {
    assert!(matches!(exp, Expression::Identifier(_)));
    let ident: Identifier = exp.try_into().unwrap();
    assert_eq!(ident.value, value);
    assert_eq!(ident.token_literal(), value);
}

fn test_boolean_literal(exp: Expression, value: bool) {
    assert!(matches!(exp, Expression::Boolean(_)));
    let boolean: Boolean = exp.try_into().unwrap();
    assert_eq!(boolean.value, value);
    assert_eq!(boolean.token_literal(), value.to_string());
}

fn test_literal_expression(exp: Expression, value: &Lit) {
    match value {
        Lit::Int(v) => test_integer_literal(exp, *v),
        Lit::Ident(v) => test_identifier(exp, v.to_string()),
        Lit::Bool(v) => test_boolean_literal(exp, *v),
    }
}

fn test_infix_expression(exp: Expression, left: &Lit, op: &str, right: &Lit) {
    assert!(matches!(exp, Expression::InfixExpression(_)));
    let infix: InfixExpression = exp.try_into().unwrap();
    test_literal_expression(*infix.left.unwrap(), left);
    assert_eq!(infix.operator, op);
    test_literal_expression(*infix.right.unwrap(), right);
}

fn check_parser_errors(p: &Parser) {
    let errors = p.errors();
    if errors.len() == 0 {
        return;
    }

    println!("parser has {} errors", errors.len());
    for msg in errors {
        println!("parser error: \"{}\"", msg)
    }
    panic!()
}

fn parse(input: &str) -> (monkey::ast::Program, Vec<String>) {
    let mut p = Parser::new(Lexer::new(input));
    let program = p.parse_program();
    let errors = p.errors().clone();
    (program, errors)
}

#[test]
fn test_let_statements() {
    let input = "
let x = 5;
let y = 10;
let foobar = 838383;
";
    let l = Lexer::new(input);
    let mut p = Parser::new(l);

    let program = p.parse_program();
    check_parser_errors(&p);
    assert_eq!(program.statements.len(), 3);

    let tests = vec!["x", "y", "foobar"];
    for (i, tt) in tests.iter().enumerate() {
        let stmt = &program.statements[i];
        test_let_statement(stmt, tt);
    }
}

#[test]
fn test_return_statements() {
    let input = "
return 5;
return 10;
return 993322;
";
    let l = Lexer::new(input);
    let mut p = Parser::new(l);

    let program = p.parse_program();
    check_parser_errors(&p);
    assert_eq!(program.statements.len(), 3);

    for stmt in program.statements {
        assert!(matches!(stmt, Statement::ReturnStatement(_)));
        assert_eq!(stmt.token_literal(), "return");
    }
}

#[test]
fn test_identifier_expression() {
    let input = "foobar;";

    let l = Lexer::new(input);
    let mut p = Parser::new(l);
    let program = p.parse_program();
    check_parser_errors(&p);
    assert_eq!(program.statements.len(), 1);

    let stmt: ExpressionStatement = (&program.statements[0]).try_into().unwrap();
    test_literal_expression(stmt.expression.unwrap(), &Lit::Ident("foobar"));
}

#[test]
fn test_integer_literal_expression() {
    let input = "5;";

    let l = Lexer::new(input);
    let mut p = Parser::new(l);
    let program = p.parse_program();
    check_parser_errors(&p);
    assert_eq!(program.statements.len(), 1);

    let stmt: ExpressionStatement = (&program.statements[0]).try_into().unwrap();
    test_literal_expression(stmt.expression.unwrap(), &Lit::Int(5));
}

#[test]
fn test_parsing_prefix_expressions() {
    let prefix_tests: Vec<(&str, &str, Lit)> = vec![
        ("!5;", "!", Lit::Int(5)),
        ("-15;", "-", Lit::Int(15)),
        ("!true;", "!", Lit::Bool(true)),
        ("!false;", "!", Lit::Bool(false)),
    ];

    for (input, op, value) in prefix_tests {
        let l = Lexer::new(input);
        let mut p = Parser::new(l);
        let program = p.parse_program();
        check_parser_errors(&p);
        assert_eq!(program.statements.len(), 1);

        let stmt: ExpressionStatement = (&program.statements[0]).try_into().unwrap();
        let exp: PrefixExpression = stmt.expression.unwrap().try_into().unwrap();
        assert_eq!(exp.operator, op);
        test_literal_expression(*exp.right.unwrap(), &value);
    }
}

#[test]
fn test_parsing_infix_expressions() {
    let infix_tests: Vec<(&str, Lit, &str, Lit)> = vec![
        ("5 + 5;", Lit::Int(5), "+", Lit::Int(5)),
        ("5 - 5;", Lit::Int(5), "-", Lit::Int(5)),
        ("5 * 5;", Lit::Int(5), "*", Lit::Int(5)),
        ("5 / 5;", Lit::Int(5), "/", Lit::Int(5)),
        ("5 > 5;", Lit::Int(5), ">", Lit::Int(5)),
        ("5 < 5;", Lit::Int(5), "<", Lit::Int(5)),
        ("5 == 5;", Lit::Int(5), "==", Lit::Int(5)),
        ("5 != 5;", Lit::Int(5), "!=", Lit::Int(5)),
        ("true == true", Lit::Bool(true), "==", Lit::Bool(true)),
        ("true != false", Lit::Bool(true), "!=", Lit::Bool(false)),
        ("false == false", Lit::Bool(false), "==", Lit::Bool(false)),
    ];

    for (input, left, op, right) in infix_tests {
        let l = Lexer::new(input);
        let mut p = Parser::new(l);
        let program = p.parse_program();
        check_parser_errors(&p);
        assert_eq!(program.statements.len(), 1);

        let stmt: ExpressionStatement = (&program.statements[0]).try_into().unwrap();
        test_infix_expression(stmt.expression.unwrap(), &left, op, &right);
    }
}

#[test]
fn test_operator_precedence_parsing() {
    let tests = vec![
        ("-a * b", "((-a) * b)"),
        ("!-a", "(!(-a))"),
        ("a + b + c", "((a + b) + c)"),
        ("a + b - c", "((a + b) - c)"),
        ("a * b * c", "((a * b) * c)"),
        ("a * b / c", "((a * b) / c)"),
        ("a + b / c", "(a + (b / c))"),
        ("a + b * c + d / e - f", "(((a + (b * c)) + (d / e)) - f)"),
        ("3 + 4; -5 * 5", "(3 + 4)((-5) * 5)"),
        ("5 > 4 == 3 < 4", "((5 > 4) == (3 < 4))"),
        ("5 < 4 != 3 > 4", "((5 < 4) != (3 > 4))"),
        (
            "3 + 4 * 5 == 3 * 1 + 4 * 5",
            "((3 + (4 * 5)) == ((3 * 1) + (4 * 5)))",
        ),
        ("true", "true"),
        ("false", "false"),
        ("3 > 5 == false", "((3 > 5) == false)"),
        ("3 < 5 == true", "((3 < 5) == true)"),
        ("1 + (2 + 3) + 4", "((1 + (2 + 3)) + 4)"),
        ("(5 + 5) * 2", "((5 + 5) * 2)"),
        ("2 / (5 + 5)", "(2 / (5 + 5))"),
        ("-(5 + 5)", "(-(5 + 5))"),
        ("!(true == true)", "(!(true == true))"),
    ];

    for (input, expected) in tests {
        let l = Lexer::new(input);
        let mut p = Parser::new(l);
        let program = p.parse_program();
        check_parser_errors(&p);
        assert_eq!(program.to_string(), expected);
    }
}

#[test]
fn let_and_return_carry_their_expressions() {
    let (program, errors) = parse("let x = 1 + 2 * 3; return -x;");
    assert!(errors.is_empty());
    assert_eq!(program.to_string(), "let x = (1 + (2 * 3));return (-x);");
}

#[test]
fn missing_prefix_handler_is_reported() {
    let (program, errors) = parse("5 + ;");
    assert_eq!(errors, vec!["no prefix parse function for ; found".to_string()]);
    assert_eq!(program.statements.len(), 1);
    assert_eq!(program.to_string(), "(5 + )");

    let (program, errors) = parse("@ x");
    assert_eq!(errors, vec!["no prefix parse function for ILLEGAL found".to_string()]);
    assert_eq!(program.statements.len(), 2);
    assert_eq!(program.to_string(), "x");
}

#[test]
fn errors_accumulate_and_parsing_goes_on() {
    let (program, errors) = parse("let = 5; let y 7; z;");
    assert_eq!(
        errors,
        vec![
            "expected next token to be IDENT, got = instead".to_string(),
            "no prefix parse function for = found".to_string(),
            "expected next token to be =, got INT instead".to_string(),
        ]
    );
    assert_eq!(program.statements.len(), 4);
    assert_eq!(program.to_string(), "57z");
}

#[test]
fn unclosed_group_is_reported() {
    let (program, errors) = parse("(1 + 2");
    assert_eq!(errors, vec!["expected next token to be ), got EOF instead".to_string()]);
    assert_eq!(program.statements.len(), 1);
    assert_eq!(program.to_string(), "");
}

#[test]
fn integer_literal_range() {
    let (program, errors) = parse("9223372036854775807;");
    assert!(errors.is_empty());
    let stmt: ExpressionStatement = (&program.statements[0]).try_into().unwrap();
    test_literal_expression(stmt.expression.unwrap(), &Lit::Int(9223372036854775807));

    let (_, errors) = parse("9223372036854775808;");
    assert_eq!(
        errors,
        vec!["could not parse 9223372036854775808 as integer".to_string()]
    );
}

#[test]
fn empty_input_parses_to_empty_program() {
    let (program, errors) = parse("");
    assert!(errors.is_empty());
    assert!(program.statements.is_empty());
    let mut p = Parser::new(Lexer::new("a;"));
    assert!(p.peek_token_is(monkey::token::TokenKind::SemiColon));
    let program = p.parse_program();
    assert_eq!(program.token_literal(), "a");
}
