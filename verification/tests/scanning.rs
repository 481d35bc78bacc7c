use zinc::settings::Settings;
use zinc::token::{LexError, Token, TokenType};
use zinc::tokenizer::Tokenizer;

fn lex(src: &str) -> Result<Vec<Token>, LexError> {
    let settings = Settings::default();
    let mut tokenizer = Tokenizer::new(String::from(src), &settings);
    tokenizer.tokenize()
}

fn fixed(tok_type: TokenType, line: u32) -> Token {
    Token { tok_type, value: None, line }
}

fn spelled(tok_type: TokenType, text: &str, line: u32) -> Token {
    Token { tok_type, value: Some(String::from(text)), line }
}

fn kinds(src: &str) -> Vec<TokenType> {
    lex(src).unwrap().iter().map(|token| token.tok_type).collect()
}

#[test]
fn empty_source_is_just_eof() {
    assert_eq!(lex(""), Ok(vec![fixed(TokenType::TokEOF, 1)]));
}

#[test]
fn white_space_only_is_just_eof() {
    assert_eq!(lex("  \t \r "), Ok(vec![fixed(TokenType::TokEOF, 1)]));
}

#[test]
fn integer_literal() {
    assert_eq!(
        lex("42"),
        Ok(vec![spelled(TokenType::TokNumLiteral, "42", 1), fixed(TokenType::TokEOF, 1)])
    );
}

#[test]
fn decimal_literal() {
    assert_eq!(
        lex("3.14"),
        Ok(vec![spelled(TokenType::TokNumLiteral, "3.14", 1), fixed(TokenType::TokEOF, 1)])
    );
}

#[test]
fn range_between_numbers() {
    assert_eq!(
        lex("1..5"),
        Ok(vec![
            spelled(TokenType::TokNumLiteral, "1", 1),
            fixed(TokenType::TokRange, 1),
            spelled(TokenType::TokNumLiteral, "5", 1),
            fixed(TokenType::TokEOF, 1),
        ])
    );
}

#[test]
fn ellipsis_between_numbers() {
    assert_eq!(
        lex("1...5"),
        Ok(vec![
            spelled(TokenType::TokNumLiteral, "1", 1),
            fixed(TokenType::TokEllipsis, 1),
            spelled(TokenType::TokNumLiteral, "5", 1),
            fixed(TokenType::TokEOF, 1),
        ])
    );
}

#[test]
fn second_decimal_point_is_an_error() {
    assert_eq!(lex("1.2.3"), Err(LexError::DuplicateDecimalPoint { line: 1 }));
}

#[test]
fn second_decimal_point_at_the_end_is_an_error() {
    assert_eq!(lex("1.2."), Err(LexError::DuplicateDecimalPoint { line: 1 }));
}

#[test]
fn error_carries_the_line_it_was_found_on() {
    assert_eq!(lex("a\nb\n\n 1.2.3"), Err(LexError::DuplicateDecimalPoint { line: 4 }));
    assert_eq!(lex("/* \n */ @"), Err(LexError::InvalidMacroMarker { line: 2 }));
}

#[test]
fn line_comment_swallows_its_line_feed() {
    assert_eq!(
        lex("// hi\nfun"),
        Ok(vec![fixed(TokenType::TokFun, 2), fixed(TokenType::TokEOF, 2)])
    );
}

#[test]
fn line_comment_may_end_the_source() {
    assert_eq!(
        lex("x // trailing"),
        Ok(vec![spelled(TokenType::TokIdentifier, "x", 1), fixed(TokenType::TokEOF, 1)])
    );
}

#[test]
fn line_feed_is_a_token() {
    assert_eq!(
        lex("x\ny"),
        Ok(vec![
            spelled(TokenType::TokIdentifier, "x", 1),
            fixed(TokenType::TokNewline, 1),
            spelled(TokenType::TokIdentifier, "y", 2),
            fixed(TokenType::TokEOF, 2),
        ])
    );
}

#[test]
fn main_is_its_own_token() {
    assert_eq!(lex("main"), Ok(vec![fixed(TokenType::TokMain, 1), fixed(TokenType::TokEOF, 1)]));
}

#[test]
fn keywords_are_case_sensitive_and_exact() {
    assert_eq!(
        lex("Main mains"),
        Ok(vec![
            spelled(TokenType::TokIdentifier, "Main", 1),
            spelled(TokenType::TokIdentifier, "mains", 1),
            fixed(TokenType::TokEOF, 1),
        ])
    );
}

#[test]
fn arrow_is_one_token() {
    assert_eq!(lex("->"), Ok(vec![fixed(TokenType::TokArrow, 1), fixed(TokenType::TokEOF, 1)]));
}

#[test]
fn increment_is_one_token() {
    assert_eq!(lex("++"), Ok(vec![fixed(TokenType::TokIncrement, 1), fixed(TokenType::TokEOF, 1)]));
}

#[test]
fn decrement_is_one_token() {
    assert_eq!(lex("--"), Ok(vec![fixed(TokenType::TokDecrement, 1), fixed(TokenType::TokEOF, 1)]));
}

#[test]
fn equals_is_one_token() {
    assert_eq!(lex("=="), Ok(vec![fixed(TokenType::TokEquals, 1), fixed(TokenType::TokEOF, 1)]));
}

#[test]
fn not_equals_is_one_token() {
    assert_eq!(lex("!="), Ok(vec![fixed(TokenType::TokNotEquals, 1), fixed(TokenType::TokEOF, 1)]));
}

#[test]
fn less_equal_is_one_token() {
    assert_eq!(lex("<="), Ok(vec![fixed(TokenType::TokLessEqual, 1), fixed(TokenType::TokEOF, 1)]));
}

#[test]
fn greater_equal_is_one_token() {
    assert_eq!(
        lex(">="),
        Ok(vec![fixed(TokenType::TokGreaterEqual, 1), fixed(TokenType::TokEOF, 1)])
    );
}

#[test]
fn left_shift_is_one_token() {
    assert_eq!(lex("<<"), Ok(vec![fixed(TokenType::TokLeftShift, 1), fixed(TokenType::TokEOF, 1)]));
}

#[test]
fn right_shift_is_one_token() {
    assert_eq!(
        lex(">>"),
        Ok(vec![fixed(TokenType::TokRightShift, 1), fixed(TokenType::TokEOF, 1)])
    );
}

#[test]
fn logical_and_is_one_token() {
    assert_eq!(lex("&&"), Ok(vec![fixed(TokenType::TokAnd, 1), fixed(TokenType::TokEOF, 1)]));
}

#[test]
fn logical_or_is_one_token() {
    assert_eq!(lex("||"), Ok(vec![fixed(TokenType::TokOr, 1), fixed(TokenType::TokEOF, 1)]));
}

#[test]
fn single_bar_and_ampersand_are_bitwise() {
    assert_eq!(
        kinds("| &"),
        vec![TokenType::TokBitOr, TokenType::TokAmpersand, TokenType::TokEOF]
    );
}

#[test]
fn assignment_compounds() {
    assert_eq!(
        kinds("*= += -= %= &= |= ^= ~="),
        vec![
            TokenType::TokTimesEqual,
            TokenType::TokPlusEqual,
            TokenType::TokMinusEqual,
            TokenType::TokModuloEqual,
            TokenType::TokBitAndEqual,
            TokenType::TokBitOrEqual,
            TokenType::TokBitXorEqual,
            TokenType::TokBitNotEqual,
            TokenType::TokEOF,
        ]
    );
}

#[test]
fn single_character_operators() {
    assert_eq!(
        kinds("* + - % & ^ ~ < > = ! : ? $ #"),
        vec![
            TokenType::TokAsterisk,
            TokenType::TokPlus,
            TokenType::TokMinus,
            TokenType::TokModulo,
            TokenType::TokAmpersand,
            TokenType::TokBitXor,
            TokenType::TokBitNot,
            TokenType::TokLeftAngle,
            TokenType::TokRightAngle,
            TokenType::TokAssign,
            TokenType::TokBang,
            TokenType::TokColon,
            TokenType::TokQuestion,
            TokenType::TokDollar,
            TokenType::TokPound,
            TokenType::TokEOF,
        ]
    );
}

#[test]
fn punctuation() {
    assert_eq!(
        kinds("(){}[],;::"),
        vec![
            TokenType::TokLeftParen,
            TokenType::TokRightParen,
            TokenType::TokLeftBrace,
            TokenType::TokRightBrace,
            TokenType::TokLeftBracket,
            TokenType::TokRightBracket,
            TokenType::TokComma,
            TokenType::TokSemi,
            TokenType::TokDoubleColon,
            TokenType::TokEOF,
        ]
    );
}

#[test]
fn longest_operator_wins_and_the_rest_follows() {
    assert_eq!(kinds("--->"), vec![TokenType::TokDecrement, TokenType::TokArrow, TokenType::TokEOF]);
    assert_eq!(kinds("+++"), vec![TokenType::TokIncrement, TokenType::TokPlus, TokenType::TokEOF]);
    assert_eq!(kinds("<<="), vec![TokenType::TokLeftShift, TokenType::TokAssign, TokenType::TokEOF]);
    assert_eq!(kinds(":::"), vec![TokenType::TokDoubleColon, TokenType::TokColon, TokenType::TokEOF]);
}

#[test]
fn dot_family_outside_numbers() {
    assert_eq!(kinds("."), vec![TokenType::TokDot, TokenType::TokEOF]);
    assert_eq!(kinds(".."), vec![TokenType::TokRange, TokenType::TokEOF]);
    assert_eq!(kinds("..."), vec![TokenType::TokEllipsis, TokenType::TokEOF]);
    assert_eq!(kinds("...."), vec![TokenType::TokEllipsis, TokenType::TokDot, TokenType::TokEOF]);
    assert_eq!(
        lex("a.b"),
        Ok(vec![
            spelled(TokenType::TokIdentifier, "a", 1),
            fixed(TokenType::TokDot, 1),
            spelled(TokenType::TokIdentifier, "b", 1),
            fixed(TokenType::TokEOF, 1),
        ])
    );
}

#[test]
fn tokenizing_twice_gives_the_same_tokens() {
    let src = "fun main() -> i32 {\n    // entry\n    return 1..5;\n}\n";
    let quiet = Settings::default();
    let loud = Settings { is_verbose: true, is_print_tokens: true, is_no_color: true };
    let first = Tokenizer::new(String::from(src), &quiet).tokenize();
    let second = Tokenizer::new(String::from(src), &loud).tokenize();
    assert!(first.is_ok());
    assert_eq!(first, second);
    assert_eq!(lex("1.2.3"), lex("1.2.3"));
}

#[test]
fn unterminated_string_runs_to_the_end() {
    assert_eq!(
        lex("\"abc"),
        Ok(vec![spelled(TokenType::TokStringLiteral, "\"abc", 1), fixed(TokenType::TokEOF, 1)])
    );
}

#[test]
fn string_keeps_both_quotes_and_its_content_verbatim() {
    assert_eq!(
        lex("\"a\\n // b\" c"),
        Ok(vec![
            spelled(TokenType::TokStringLiteral, "\"a\\n // b\"", 1),
            spelled(TokenType::TokIdentifier, "c", 1),
            fixed(TokenType::TokEOF, 1),
        ])
    );
}

#[test]
fn lone_quote_is_a_string_literal() {
    assert_eq!(
        lex("\""),
        Ok(vec![spelled(TokenType::TokStringLiteral, "\"", 1), fixed(TokenType::TokEOF, 1)])
    );
}

#[test]
fn line_feeds_inside_a_string_count_as_lines() {
    assert_eq!(
        lex("\"a\nb\" c"),
        Ok(vec![
            spelled(TokenType::TokStringLiteral, "\"a\nb\"", 1),
            spelled(TokenType::TokIdentifier, "c", 2),
            fixed(TokenType::TokEOF, 2),
        ])
    );
}

#[test]
fn block_comment_leaves_no_token_and_counts_lines() {
    assert_eq!(
        lex("a /* x\n y\n */ b"),
        Ok(vec![
            spelled(TokenType::TokIdentifier, "a", 1),
            spelled(TokenType::TokIdentifier, "b", 3),
            fixed(TokenType::TokEOF, 3),
        ])
    );
}

#[test]
fn unterminated_block_comment_runs_to_the_end() {
    assert_eq!(
        lex("a /* x\n y"),
        Ok(vec![spelled(TokenType::TokIdentifier, "a", 1), fixed(TokenType::TokEOF, 2)])
    );
}

#[test]
fn block_comment_needs_its_own_star_to_close() {
    assert_eq!(lex("/*/ a"), Ok(vec![fixed(TokenType::TokEOF, 1)]));
    assert_eq!(
        lex("/**/ a"),
        Ok(vec![spelled(TokenType::TokIdentifier, "a", 1), fixed(TokenType::TokEOF, 1)])
    );
}

#[test]
fn slash_alone_divides() {
    assert_eq!(
        lex("a / b"),
        Ok(vec![
            spelled(TokenType::TokIdentifier, "a", 1),
            fixed(TokenType::TokDivide, 1),
            spelled(TokenType::TokIdentifier, "b", 1),
            fixed(TokenType::TokEOF, 1),
        ])
    );
    assert_eq!(kinds("/="), vec![TokenType::TokDivide, TokenType::TokAssign, TokenType::TokEOF]);
    assert_eq!(kinds("/"), vec![TokenType::TokDivide, TokenType::TokEOF]);
}

#[test]
fn identifier_takes_letters_numbers_and_underscores() {
    assert_eq!(
        lex("snake_case_2 x9"),
        Ok(vec![
            spelled(TokenType::TokIdentifier, "snake_case_2", 1),
            spelled(TokenType::TokIdentifier, "x9", 1),
            fixed(TokenType::TokEOF, 1),
        ])
    );
}

#[test]
fn identifier_may_hold_letters_of_any_script() {
    assert_eq!(
        lex("größe = 1"),
        Ok(vec![
            spelled(TokenType::TokIdentifier, "größe", 1),
            fixed(TokenType::TokAssign, 1),
            spelled(TokenType::TokNumLiteral, "1", 1),
            fixed(TokenType::TokEOF, 1),
        ])
    );
}

#[test]
fn number_may_hold_numerals_of_any_script() {
    assert_eq!(
        lex("٣٤"),
        Ok(vec![spelled(TokenType::TokNumLiteral, "٣٤", 1), fixed(TokenType::TokEOF, 1)])
    );
}

#[test]
fn leading_underscore_starts_no_identifier() {
    assert_eq!(
        lex("_x"),
        Ok(vec![spelled(TokenType::TokIdentifier, "x", 1), fixed(TokenType::TokEOF, 1)])
    );
}

#[test]
fn every_keyword_has_its_token() {
    let table = [
        ("char", TokenType::TokTypeChar),
        ("string", TokenType::TokTypeString),
        ("f32", TokenType::TokTypef32),
        ("f64", TokenType::TokTypef64),
        ("i64", TokenType::TokTypei64),
        ("u64", TokenType::TokTypeu64),
        ("i32", TokenType::TokTypei32),
        ("u32", TokenType::TokTypeu32),
        ("i16", TokenType::TokTypei16),
        ("u16", TokenType::TokTypeu16),
        ("i8", TokenType::TokTypei8),
        ("u8", TokenType::TokTypeu8),
        ("bool", TokenType::TokTypeBool),
        ("struct", TokenType::TokStruct),
        ("fun", TokenType::TokFun),
        ("enum", TokenType::TokEnum),
        ("const", TokenType::TokConst),
        ("try", TokenType::TokTry),
        ("catch", TokenType::TokCatch),
        ("throw", TokenType::TokThrow),
        ("return", TokenType::TokReturn),
        ("bellyflop", TokenType::TokBellyflop),
        ("dive", TokenType::TokDive),
        ("from", TokenType::TokFrom),
        ("switch", TokenType::TokSwitch),
        ("case", TokenType::TokCase),
        ("default", TokenType::TokDefault),
        ("if", TokenType::TokIf),
        ("else", TokenType::TokElse),
        ("type", TokenType::TokAlias),
        ("do", TokenType::TokDo),
        ("while", TokenType::TokWhile),
        ("break", TokenType::TokBreak),
        ("continue", TokenType::TokContinue),
        ("for", TokenType::TokFor),
        ("in", TokenType::TokIn),
        ("when", TokenType::TokWhen),
        ("main", TokenType::TokMain),
    ];
    for (word, kind) in table {
        assert_eq!(lex(word), Ok(vec![fixed(kind, 1), fixed(TokenType::TokEOF, 1)]));
    }
}

#[test]
fn trailing_decimal_point_belongs_to_the_literal() {
    assert_eq!(
        lex("1."),
        Ok(vec![spelled(TokenType::TokNumLiteral, "1.", 1), fixed(TokenType::TokEOF, 1)])
    );
    assert_eq!(
        lex("1.x"),
        Ok(vec![
            spelled(TokenType::TokNumLiteral, "1.", 1),
            spelled(TokenType::TokIdentifier, "x", 1),
            fixed(TokenType::TokEOF, 1),
        ])
    );
}

#[test]
fn range_after_a_decimal_literal() {
    assert_eq!(
        lex("1.5..7.25"),
        Ok(vec![
            spelled(TokenType::TokNumLiteral, "1.5", 1),
            fixed(TokenType::TokRange, 1),
            spelled(TokenType::TokNumLiteral, "7.25", 1),
            fixed(TokenType::TokEOF, 1),
        ])
    );
}

#[test]
fn range_with_nothing_behind_it() {
    assert_eq!(
        lex("1.."),
        Ok(vec![
            spelled(TokenType::TokNumLiteral, "1", 1),
            fixed(TokenType::TokRange, 1),
            fixed(TokenType::TokEOF, 1),
        ])
    );
    assert_eq!(
        lex("1...x"),
        Ok(vec![
            spelled(TokenType::TokNumLiteral, "1", 1),
            fixed(TokenType::TokEllipsis, 1),
            spelled(TokenType::TokIdentifier, "x", 1),
            fixed(TokenType::TokEOF, 1),
        ])
    );
}

#[test]
fn four_dots_after_a_number() {
    assert_eq!(
        lex("1....5"),
        Ok(vec![
            spelled(TokenType::TokNumLiteral, "1", 1),
            fixed(TokenType::TokEllipsis, 1),
            fixed(TokenType::TokDot, 1),
            spelled(TokenType::TokNumLiteral, "5", 1),
            fixed(TokenType::TokEOF, 1),
        ])
    );
}

#[test]
fn macro_marker_carries_its_name() {
    assert_eq!(
        lex("@print x"),
        Ok(vec![
            spelled(TokenType::TokAt, "@print", 1),
            spelled(TokenType::TokIdentifier, "x", 1),
            fixed(TokenType::TokEOF, 1),
        ])
    );
}

#[test]
fn macro_marker_runs_up_to_white_space() {
    assert_eq!(
        lex("@print(1)\n"),
        Ok(vec![
            spelled(TokenType::TokAt, "@print(1)", 1),
            fixed(TokenType::TokNewline, 1),
            fixed(TokenType::TokEOF, 2),
        ])
    );
}

#[test]
fn bare_macro_marker_is_an_error() {
    assert_eq!(lex("@"), Err(LexError::InvalidMacroMarker { line: 1 }));
    assert_eq!(lex("@ name"), Err(LexError::InvalidMacroMarker { line: 1 }));
    assert_eq!(lex("x\n@\n"), Err(LexError::InvalidMacroMarker { line: 2 }));
}

#[test]
fn characters_of_no_meaning_are_dropped() {
    assert_eq!(
        lex("a ` \\ ' b"),
        Ok(vec![
            spelled(TokenType::TokIdentifier, "a", 1),
            spelled(TokenType::TokIdentifier, "b", 1),
            fixed(TokenType::TokEOF, 1),
        ])
    );
}

#[test]
fn eof_is_last_and_only_once() {
    for src in ["", "\n\n", "a b c", "/* open", "\"open", "fun main() { return 0; }", "// c"] {
        let tokens = lex(src).unwrap();
        let eofs = tokens.iter().filter(|token| token.tok_type == TokenType::TokEOF).count();
        assert_eq!(eofs, 1);
        assert_eq!(tokens.last().unwrap().tok_type, TokenType::TokEOF);
    }
}

#[test]
fn small_program() {
    assert_eq!(
        lex("fun main() -> i32 {\n\treturn x1 + 2.5;\n}"),
        Ok(vec![
            fixed(TokenType::TokFun, 1),
            fixed(TokenType::TokMain, 1),
            fixed(TokenType::TokLeftParen, 1),
            fixed(TokenType::TokRightParen, 1),
            fixed(TokenType::TokArrow, 1),
            fixed(TokenType::TokTypei32, 1),
            fixed(TokenType::TokLeftBrace, 1),
            fixed(TokenType::TokNewline, 1),
            fixed(TokenType::TokReturn, 2),
            spelled(TokenType::TokIdentifier, "x1", 2),
            fixed(TokenType::TokPlus, 2),
            spelled(TokenType::TokNumLiteral, "2.5", 2),
            fixed(TokenType::TokSemi, 2),
            fixed(TokenType::TokNewline, 2),
            fixed(TokenType::TokRightBrace, 3),
            fixed(TokenType::TokEOF, 3),
        ])
    );
}

#[test]
fn tokenizer_is_spent_after_one_run() {
    let settings = Settings::default();
    let mut tokenizer = Tokenizer::new(String::from("a\nb"), &settings);
    assert_eq!(tokenizer.tokenize().unwrap().len(), 4);
    assert_eq!(tokenizer.tokenize(), Ok(vec![fixed(TokenType::TokEOF, 2)]));
}

#[test]
fn tokenizer_stops_at_the_error() {
    let settings = Settings::default();
    let mut tokenizer = Tokenizer::new(String::from("1.2.3"), &settings);
    assert_eq!(tokenizer.tokenize(), Err(LexError::DuplicateDecimalPoint { line: 1 }));
    assert_eq!(
        tokenizer.tokenize(),
        Ok(vec![
            fixed(TokenType::TokDot, 1),
            spelled(TokenType::TokNumLiteral, "3", 1),
            fixed(TokenType::TokEOF, 1),
        ])
    );
}

#[test]
fn checked_constructor_accepts_ordinary_sources() {
    let settings = Settings::default();
    let mut tokenizer = Tokenizer::try_new(String::from("a\n\nb"), &settings).unwrap();
    assert_eq!(
        tokenizer.tokenize(),
        Ok(vec![
            spelled(TokenType::TokIdentifier, "a", 1),
            fixed(TokenType::TokNewline, 1),
            fixed(TokenType::TokNewline, 2),
            spelled(TokenType::TokIdentifier, "b", 3),
            fixed(TokenType::TokEOF, 3),
        ])
    );
}

#[test]
fn tokenizer_hands_its_settings_back() {
    let settings = Settings { is_verbose: true, is_print_tokens: false, is_no_color: true };
    let tokenizer = Tokenizer::new(String::new(), &settings);
    assert_eq!(*tokenizer.settings(), settings);
}

#[test]
fn block_comments_do_not_nest() {
    assert_eq!(
        lex("/* a /* b */ c */"),
        Ok(vec![
            spelled(TokenType::TokIdentifier, "c", 1),
            fixed(TokenType::TokAsterisk, 1),
            fixed(TokenType::TokDivide, 1),
            fixed(TokenType::TokEOF, 1),
        ])
    );
}

#[test]
fn comment_may_follow_a_token_directly() {
    assert_eq!(
        lex("a//b\nc/*d*/e"),
        Ok(vec![
            spelled(TokenType::TokIdentifier, "a", 1),
            spelled(TokenType::TokIdentifier, "c", 2),
            spelled(TokenType::TokIdentifier, "e", 2),
            fixed(TokenType::TokEOF, 2),
        ])
    );
}

#[test]
fn carriage_return_is_plain_white_space() {
    assert_eq!(
        lex("a\r\nb\r"),
        Ok(vec![
            spelled(TokenType::TokIdentifier, "a", 1),
            fixed(TokenType::TokNewline, 1),
            spelled(TokenType::TokIdentifier, "b", 2),
            fixed(TokenType::TokEOF, 2),
        ])
    );
}

#[test]
fn number_ends_where_a_word_begins() {
    assert_eq!(
        lex("12ab 3_4"),
        Ok(vec![
            spelled(TokenType::TokNumLiteral, "12", 1),
            spelled(TokenType::TokIdentifier, "ab", 1),
            spelled(TokenType::TokNumLiteral, "3", 1),
            spelled(TokenType::TokNumLiteral, "4", 1),
            fixed(TokenType::TokEOF, 1),
        ])
    );
}

#[test]
fn source_may_hold_characters_of_several_bytes() {
    assert_eq!(
        lex("\"é\" → x"),
        Ok(vec![
            spelled(TokenType::TokStringLiteral, "\"é\"", 1),
            spelled(TokenType::TokIdentifier, "x", 1),
            fixed(TokenType::TokEOF, 1),
        ])
    );
}
