use zinc::parser::{Operator, Parser};
use zinc::token::{Token, TokenType};

fn tokens() -> Vec<Token> {
    vec![
        Token { tok_type: TokenType::TokNumLiteral, value: Some(String::from("1")), line: 1 },
        Token { tok_type: TokenType::TokPlus, value: None, line: 1 },
        Token { tok_type: TokenType::TokEOF, value: None, line: 1 },
    ]
}

#[test]
fn parser_peeks_without_consuming() {
    let parser = Parser::new(tokens());
    assert_eq!(parser.peek(0), Some(&tokens()[0]));
    assert_eq!(parser.peek(2), Some(&tokens()[2]));
    assert_eq!(parser.peek(3), None);
    assert_eq!(parser.peek(usize::MAX), None);
    assert_eq!(parser.peek(0), Some(&tokens()[0]));
}

#[test]
fn parser_consumes_what_is_there() {
    let mut parser = Parser::new(tokens());
    parser.consume(2);
    assert_eq!(parser.peek(0), Some(&tokens()[2]));
    parser.consume(1);
    assert_eq!(parser.peek(0), None);
}

#[test]
fn parser_does_not_consume_past_the_end() {
    let mut parser = Parser::new(tokens());
    parser.consume(4);
    assert_eq!(parser.peek(0), Some(&tokens()[0]));
    parser.consume(usize::MAX);
    assert_eq!(parser.peek(0), Some(&tokens()[0]));
    parser.consume(3);
    assert_eq!(parser.peek(0), None);
}

#[test]
fn parser_over_no_tokens() {
    let mut parser = Parser::new(Vec::new());
    assert_eq!(parser.peek(0), None);
    parser.consume(0);
    assert_eq!(parser.peek(0), None);
}

#[test]
fn operators_compare_by_variant() {
    assert_eq!(Operator::Plus, Operator::Plus);
    assert_ne!(Operator::Multiply, Operator::Divide);
    assert_ne!(Operator::Minus, Operator::Modulus);
}
