use monkey::lexer::Lexer;
use monkey::token::{Token, TokenKind};

#[test]
fn test_next_token() {
    let input = "let five = 5;
let ten = 10;

let add = fn(x, y) {
    x + y;
};

let result = add(five, ten);
!-/*5;
5 < 10 > 5;

if (5 < 10) {
    return true;
} else {
    return false;
}

10 == 10;
10 != 9;
";

    let tests = vec![
        (TokenKind::Let, "let"),
        (TokenKind::Ident, "five"),
        (TokenKind::Assign, "="),
        (TokenKind::Int, "5"),
        (TokenKind::SemiColon, ";"),
        (TokenKind::Let, "let"),
        (TokenKind::Ident, "ten"),
        (TokenKind::Assign, "="),
        (TokenKind::Int, "10"),
        (TokenKind::SemiColon, ";"),
        (TokenKind::Let, "let"),
        (TokenKind::Ident, "add"),
        (TokenKind::Assign, "="),
        (TokenKind::Function, "fn"),
        (TokenKind::LParen, "("),
        (TokenKind::Ident, "x"),
        (TokenKind::Comma, ","),
        (TokenKind::Ident, "y"),
        (TokenKind::RParen, ")"),
        (TokenKind::LBrace, "{"),
        (TokenKind::Ident, "x"),
        (TokenKind::Plus, "+"),
        (TokenKind::Ident, "y"),
        (TokenKind::SemiColon, ";"),
        (TokenKind::RBrace, "}"),
        (TokenKind::SemiColon, ";"),
        (TokenKind::Let, "let"),
        (TokenKind::Ident, "result"),
        (TokenKind::Assign, "="),
        (TokenKind::Ident, "add"),
        (TokenKind::LParen, "("),
        (TokenKind::Ident, "five"),
        (TokenKind::Comma, ","),
        (TokenKind::Ident, "ten"),
        (TokenKind::RParen, ")"),
        (TokenKind::SemiColon, ";"),
        (TokenKind::Bang, "!"),
        (TokenKind::Minus, "-"),
        (TokenKind::Slash, "/"),
        (TokenKind::Asterisk, "*"),
        (TokenKind::Int, "5"),
        (TokenKind::SemiColon, ";"),
        (TokenKind::Int, "5"),
        (TokenKind::Lt, "<"),
        (TokenKind::Int, "10"),
        (TokenKind::Gt, ">"),
        (TokenKind::Int, "5"),
        (TokenKind::SemiColon, ";"),
        (TokenKind::If, "if"),
        (TokenKind::LParen, "("),
        (TokenKind::Int, "5"),
        (TokenKind::Lt, "<"),
        (TokenKind::Int, "10"),
        (TokenKind::RParen, ")"),
        (TokenKind::LBrace, "{"),
        (TokenKind::Return, "return"),
        (TokenKind::True, "true"),
        (TokenKind::SemiColon, ";"),
        (TokenKind::RBrace, "}"),
        (TokenKind::Else, "else"),
        (TokenKind::LBrace, "{"),
        (TokenKind::Return, "return"),
        (TokenKind::False, "false"),
        (TokenKind::SemiColon, ";"),
        (TokenKind::RBrace, "}"),
        (TokenKind::Int, "10"),
        (TokenKind::Eq, "=="),
        (TokenKind::Int, "10"),
        (TokenKind::SemiColon, ";"),
        (TokenKind::Int, "10"),
        (TokenKind::NotEq, "!="),
        (TokenKind::Int, "9"),
        (TokenKind::SemiColon, ";"),
        (TokenKind::EOF, ""),
    ];

    let mut l = Lexer::new(input);

    for (expected_kind, expected_literal) in tests.into_iter() {
        let tok = l.next_token();

        assert_eq!(tok.kind, expected_kind);
        assert_eq!(tok.literal, expected_literal);
    }
}

#[test]
fn eof_repeats_at_end_of_input() {
    let mut l = Lexer::new("x  ");
    assert_eq!(l.next_token(), Token::new(TokenKind::Ident, "x"));
    for _ in 0..5 {
        let tok = l.next_token();
        assert_eq!(tok.kind, TokenKind::EOF);
        assert_eq!(tok.literal, "");
    }
}

#[test]
fn empty_and_blank_input_give_eof() {
    let mut l = Lexer::new("");
    assert_eq!(l.next_token().kind, TokenKind::EOF);
    let mut l = Lexer::new(" \t\r\n");
    assert_eq!(l.next_token().kind, TokenKind::EOF);
    assert_eq!(l.next_token().kind, TokenKind::EOF);
}

#[test]
fn unknown_characters_are_illegal_one_at_a_time() {
    let mut l = Lexer::new("@#a");
    assert_eq!(l.next_token(), Token::new(TokenKind::Illegal, "@"));
    assert_eq!(l.next_token(), Token::new(TokenKind::Illegal, "#"));
    assert_eq!(l.next_token(), Token::new(TokenKind::Ident, "a"));
    assert_eq!(l.next_token().kind, TokenKind::EOF);
}

#[test]
fn two_character_operators_need_the_second_character() {
    let mut l = Lexer::new("= ! == != =!");
    let kinds = vec![
        TokenKind::Assign,
        TokenKind::Bang,
        TokenKind::Eq,
        TokenKind::NotEq,
        TokenKind::Assign,
        TokenKind::Bang,
        TokenKind::EOF,
    ];
    for k in kinds {
        assert_eq!(l.next_token().kind, k);
    }
}

#[test]
fn identifiers_take_underscores_and_stop_at_digits() {
    let mut l = Lexer::new("_foo_bar9 letter");
    assert_eq!(l.next_token(), Token::new(TokenKind::Ident, "_foo_bar"));
    assert_eq!(l.next_token(), Token::new(TokenKind::Int, "9"));
    assert_eq!(l.next_token(), Token::new(TokenKind::Ident, "letter"));
}

#[test]
fn keywords_are_looked_up_by_whole_word() {
    assert_eq!(TokenKind::look_up_ident("fn"), TokenKind::Function);
    assert_eq!(TokenKind::look_up_ident("let"), TokenKind::Let);
    assert_eq!(TokenKind::look_up_ident("true"), TokenKind::True);
    assert_eq!(TokenKind::look_up_ident("false"), TokenKind::False);
    assert_eq!(TokenKind::look_up_ident("if"), TokenKind::If);
    assert_eq!(TokenKind::look_up_ident("else"), TokenKind::Else);
    assert_eq!(TokenKind::look_up_ident("return"), TokenKind::Return);
    assert_eq!(TokenKind::look_up_ident("lets"), TokenKind::Ident);
    assert_eq!(TokenKind::look_up_ident("f"), TokenKind::Ident);
}

#[test]
fn kind_names_for_diagnostics() {
    assert_eq!(TokenKind::EOF.name(), "EOF");
    assert_eq!(TokenKind::Ident.name(), "IDENT");
    assert_eq!(TokenKind::NotEq.name(), "!=");
    assert_eq!(TokenKind::Function.name(), "FUNCTION");
}
