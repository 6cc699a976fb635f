use divertido::error::ErrorType;
use divertido::expression::Expression;
use divertido::lexer::Lexer;
use divertido::object::{ArithOp, Object};
use divertido::parser::Parser;
use divertido::interpreter::Interpreter;
use divertido::statement::Statement;
use divertido::token::{Token, TokenType};

fn read(s: &str) -> u64 {
    s.parse::<f64>().unwrap().to_bits()
}

fn arith(op: ArithOp, a: u64, b: u64) -> u64 {
    let (x, y) = (f64::from_bits(a), f64::from_bits(b));
    let r = match op {
        ArithOp::Add => x + y,
        ArithOp::Sub => x - y,
        ArithOp::Mul => x * y,
        ArithOp::Div => x / y,
        ArithOp::Rem => x % y,
    };
    r.to_bits()
}

fn show(b: u64) -> String {
    format!("{}", f64::from_bits(b))
}

fn lex(src: &str) -> Vec<Token> {
    Lexer::new(src).lex(&read).unwrap()
}

fn kinds(tokens: &[Token]) -> Vec<TokenType> {
    tokens.iter().map(|t| t.ttype).collect()
}

fn lexemes(tokens: &[Token]) -> Vec<String> {
    tokens.iter().map(|t| t.lexeme.clone()).collect()
}

#[test]
fn unterminated_string_is_lexing_error() {
    let e = Lexer::new("\"abc").lex(&read).unwrap_err();
    assert_eq!(e.etype, ErrorType::LexingError);
    assert_eq!(e.message, "Unterminated string");
    assert_eq!(e.line, 1);
}

#[test]
fn comment_lexes_like_nothing() {
    let with_comment = lex("// x\n5;");
    let plain = lex("5;");
    assert_eq!(kinds(&with_comment), kinds(&plain));
    assert_eq!(lexemes(&with_comment), lexemes(&plain));
    assert_eq!(with_comment[0].literal, plain[0].literal);
    assert_eq!(with_comment[0].line, 2);
}

#[test]
fn lexing_twice_gives_same_tokens() {
    let src = "let a = 12; while a >= 1 { print \"x\", a; a = a - 1; }";
    let first = Lexer::new(src).lex(&read);
    let second = Lexer::new(src).lex(&read);
    assert!(first.is_err() && second.is_err());
    assert_eq!(first.unwrap_err().message, second.unwrap_err().message);
    let src = "let a = 12; while a >= 1 { print \"x\"; a = a - 1; }";
    let first = lex(src);
    let second = lex(src);
    assert_eq!(kinds(&first), kinds(&second));
    assert_eq!(lexemes(&first), lexemes(&second));
    let lines: Vec<usize> = first.iter().map(|t| t.line).collect();
    let again: Vec<usize> = second.iter().map(|t| t.line).collect();
    assert_eq!(lines, again);
}

#[test]
fn operators_take_one_or_two_characters() {
    let tokens = lex("= == ! != > >= < <= / + - * ( ) { } ;");
    assert_eq!(
        kinds(&tokens),
        vec![
            TokenType::Equal,
            TokenType::EqualEqual,
            TokenType::Bang,
            TokenType::BangEqual,
            TokenType::Greater,
            TokenType::GreaterEqual,
            TokenType::Less,
            TokenType::LessEqual,
            TokenType::Division,
            TokenType::Plus,
            TokenType::Minus,
            TokenType::Multiplication,
            TokenType::OpenParen,
            TokenType::CloseParen,
            TokenType::OpenCurly,
            TokenType::CloseCurly,
            TokenType::Semicolon,
            TokenType::EOF,
        ]
    );
    assert_eq!(tokens[1].lexeme, "==");
    assert_eq!(tokens[17].lexeme, "\0");
}

#[test]
fn keywords_and_identifiers() {
    let tokens = lex("let if else while true false nil print counter");
    assert_eq!(
        kinds(&tokens),
        vec![
            TokenType::Let,
            TokenType::If,
            TokenType::Else,
            TokenType::While,
            TokenType::True,
            TokenType::False,
            TokenType::Nil,
            TokenType::Print,
            TokenType::Identifier,
            TokenType::EOF,
        ]
    );
    assert_eq!(tokens[4].literal, Object::Boolean(true));
    assert_eq!(tokens[5].literal, Object::Boolean(false));
    assert_eq!(tokens[8].lexeme, "counter");
}

#[test]
fn literals_carry_their_values() {
    let tokens = lex("42 \"hi there\"");
    assert_eq!(tokens[0].ttype, TokenType::Number);
    assert_eq!(tokens[0].literal, Object::Number(42f64.to_bits()));
    assert_eq!(tokens[1].ttype, TokenType::String);
    assert_eq!(tokens[1].lexeme, "\"hi there\"");
    assert_eq!(tokens[1].literal, Object::String("hi there".to_string()));
}

#[test]
fn newlines_advance_the_line() {
    let tokens = lex("a\n\nb");
    assert_eq!(tokens[0].line, 1);
    assert_eq!(tokens[1].line, 3);
    assert_eq!(tokens[2].ttype, TokenType::EOF);
    assert_eq!(tokens[2].line, 3);
}

#[test]
fn empty_source_is_just_eof() {
    let tokens = lex("");
    assert_eq!(kinds(&tokens), vec![TokenType::EOF]);
    assert_eq!(tokens[0].line, 1);
}

#[test]
fn invalid_character_is_lexing_error() {
    let e = Lexer::new("let a = 1;\nlet b = a # 2;").lex(&read).unwrap_err();
    assert_eq!(e.etype, ErrorType::LexingError);
    assert_eq!(e.message, "Invalid character '#'");
    assert_eq!(e.line, 2);
}

#[test]
fn sum_of_three_parses_left_grouped() {
    let statements = Parser::new(lex("1+2+3;")).parse().unwrap();
    assert_eq!(statements.len(), 1);
    match &statements[0] {
        Statement::Expression(s) => match &s.expression {
            Expression::Binary(outer) => {
                assert_eq!(outer.operator.ttype, TokenType::Plus);
                assert!(matches!(*outer.left, Expression::Binary(_)));
                assert!(matches!(*outer.right, Expression::Literal(_)));
            },
            other => panic!("not a binary expression: {:?}", other),
        },
        other => panic!("not an expression statement: {:?}", other),
    }
}

#[test]
fn identifier_always_starts_an_assignment() {
    let e = Parser::new(lex("x + 1;")).parse().unwrap_err();
    assert_eq!(e.etype, ErrorType::ParsingError);
    assert_eq!(e.message, "Expected '=' after identifier, found '+'");
}

#[test]
fn let_without_identifier_is_parsing_error() {
    let e = Parser::new(lex("let = 5;")).parse().unwrap_err();
    assert_eq!(e.message, "Expected identifier after 'let', found '='");
}

#[test]
fn unexpected_token_in_expression() {
    let e = Parser::new(lex("print );")).parse().unwrap_err();
    assert_eq!(e.message, "Unexpected ')'");
}

#[test]
fn unclosed_group_and_block() {
    let e = Parser::new(lex("print (1;")).parse().unwrap_err();
    assert_eq!(e.message, "Expected ')' after expression, found ';'");
    let e = Parser::new(lex("while true { print 1;")).parse().unwrap_err();
    assert_eq!(e.message, "Expected '}' after block, found '\0'");
    let e = Parser::new(lex("if true print 1;")).parse().unwrap_err();
    assert_eq!(e.message, "Expected '{' before block, found 'print'");
}

#[test]
fn print_takes_a_comma_separated_list() {
    let tokens = vec![
        Token::new(TokenType::Print, "print", Object::Nil, 1),
        Token::new(TokenType::Number, "1", Object::Number(1f64.to_bits()), 1),
        Token::new(TokenType::Comma, ",", Object::Nil, 1),
        Token::new(TokenType::String, "\"b\"", Object::String("b".to_string()), 1),
        Token::new(TokenType::Semicolon, ";", Object::Nil, 1),
        Token::new(TokenType::EOF, "\0", Object::Nil, 1),
    ];
    let statements = Parser::new(tokens).parse().unwrap();
    let mut out = Vec::new();
    let mut interpreter = Interpreter::new();
    interpreter.run(&statements, &arith, &show, 10, &mut out).unwrap();
    assert_eq!(out, vec!["1b"]);
}

#[test]
fn and_or_evaluate_both_sides_by_truthiness() {
    let tokens = vec![
        Token::new(TokenType::Print, "print", Object::Nil, 1),
        Token::new(TokenType::Number, "0", Object::Number(0f64.to_bits()), 1),
        Token::new(TokenType::And, "and", Object::Nil, 1),
        Token::new(TokenType::Nil, "nil", Object::Nil, 1),
        Token::new(TokenType::Or, "or", Object::Nil, 1),
        Token::new(TokenType::String, "\"\"", Object::String(String::new()), 1),
        Token::new(TokenType::Semicolon, ";", Object::Nil, 1),
        Token::new(TokenType::EOF, "\0", Object::Nil, 1),
    ];
    let statements = Parser::new(tokens).parse().unwrap();
    let mut out = Vec::new();
    Interpreter::new().run(&statements, &arith, &show, 10, &mut out).unwrap();
    assert_eq!(out, vec!["true"]);
}

#[test]
fn interpreter_keeps_bindings_between_runs() {
    let mut interpreter = Interpreter::new();
    let mut out = Vec::new();
    let first = Parser::new(lex("let k = 3;")).parse().unwrap();
    interpreter.run(&first, &arith, &show, 10, &mut out).unwrap();
    let second = Parser::new(lex("print k * k;")).parse().unwrap();
    interpreter.run(&second, &arith, &show, 10, &mut out).unwrap();
    assert_eq!(out, vec!["9"]);
}

#[test]
fn modulo_operator_from_tokens() {
    let tokens = vec![
        Token::new(TokenType::Print, "print", Object::Nil, 1),
        Token::new(TokenType::Number, "7", Object::Number(7f64.to_bits()), 1),
        Token::new(TokenType::Modulo, "%", Object::Nil, 1),
        Token::new(TokenType::Number, "3", Object::Number(3f64.to_bits()), 1),
        Token::new(TokenType::Semicolon, ";", Object::Nil, 1),
        Token::new(TokenType::EOF, "\0", Object::Nil, 1),
    ];
    let statements = Parser::new(tokens).parse().unwrap();
    let mut out = Vec::new();
    Interpreter::new().run(&statements, &arith, &show, 10, &mut out).unwrap();
    assert_eq!(out, vec!["1"]);
}

#[test]
fn tokens_describe_themselves() {
    let tokens = lex("\n\"s\" 12");
    assert_eq!(tokens[0].describe(&show), "Token '\"s\"' of type 'String' (Object: s) in line 2");
    assert_eq!(tokens[1].describe(&show), "Token '12' of type 'Number' (Object: 12) in line 2");
    assert_eq!(TokenType::GreaterEqual.name(), "GreaterEqual");
    assert_eq!(tokens[2].describe(&show), "Token '\0' of type 'EOF' (Object: nil) in line 2");
}
