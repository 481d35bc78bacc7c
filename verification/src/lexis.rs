//! The lexical grammar, as mathematics.
//!
//! A source is a sequence of characters. [`scan`] says which tokens it holds,
//! by walking it one lexeme at a time with [`step`]. Nothing here runs: the
//! tokenizer is proved to compute exactly what these functions say.

use vstd::prelude::*;
use crate::chars::{alphabetic, numeric, white_space, word_char};
use crate::token::{LexErrorView, TokenType, TokenView};

verus! {

/// The line, counted from 1, of position `pos`: one more than the number of
/// line feeds in front of it.
pub open spec fn line_at(src: Seq<char>, pos: int) -> nat
    decreases pos,
{
    if pos <= 0 {
        1
    } else if pos <= src.len() && src[pos - 1] == '\n' {
        line_at(src, pos - 1) + 1
    } else {
        line_at(src, pos - 1)
    }
}

/// The character at position `i`, if the source reaches that far.
pub open spec fn peek_at(src: Seq<char>, i: int) -> Option<char> {
    if 0 <= i < src.len() {
        Some(src[i])
    } else {
        None
    }
}

/// The kinds of character runs that the scanner consumes greedily.
#[derive(Debug, Clone, Copy, PartialEq, Eq, Structural)]
pub enum Run {
    /// Digits of a number literal.
    Digits,
    /// Letters, numbers and `_`: the tail of an identifier.
    Word,
    /// Everything up to a line feed: the body of a line comment.
    LineRest,
    /// Everything up to a double quote: the body of a string literal.
    StringBody,
    /// Everything up to white space: the name of a macro marker.
    MarkerName,
}

impl Run {
    /// Whether `c` may stand in a run of this kind.
    pub open spec fn admits(self, c: char) -> bool {
        match self {
            Run::Digits => numeric(c),
            Run::Word => word_char(c),
            Run::LineRest => c != '\n',
            Run::StringBody => c != '"',
            Run::MarkerName => !white_space(c),
        }
    }
}

/// Where the longest run of `run` characters that starts at `from` ends.
pub open spec fn run_end(src: Seq<char>, from: int, run: Run) -> int
    decreases src.len() - from,
{
    if 0 <= from < src.len() && run.admits(src[from]) {
        run_end(src, from + 1, run)
    } else {
        from
    }
}

/// Whether `*/` stands at position `i`.
pub open spec fn closes_at(src: Seq<char>, i: int) -> bool {
    peek_at(src, i) == Some('*') && peek_at(src, i + 1) == Some('/')
}

/// Where a block comment ends whose body starts at `from`: behind the first
/// `*/`, or at the end of the source if there is none.
pub open spec fn block_comment_end(src: Seq<char>, from: int) -> int
    decreases src.len() - from,
{
    if from < 0 || from >= src.len() {
        from
    } else if closes_at(src, from) {
        from + 2
    } else {
        block_comment_end(src, from + 1)
    }
}

/// Where a line comment ends whose body starts at `from`: behind the line
/// feed that closes it, or at the end of the source if there is none.
pub open spec fn line_comment_end(src: Seq<char>, from: int) -> int {
    let body_end = run_end(src, from, Run::LineRest);
    if body_end < src.len() {
        body_end + 1
    } else {
        body_end
    }
}

/// Where a string literal ends whose opening quote is at `start`: behind the
/// closing quote, or at the end of the source if there is none.
pub open spec fn string_end(src: Seq<char>, start: int) -> int {
    let body_end = run_end(src, start + 1, Run::StringBody);
    if body_end < src.len() {
        body_end + 1
    } else {
        body_end
    }
}

/// A token of fixed spelling whose first character is at `start`.
pub open spec fn fixed(kind: TokenType, src: Seq<char>, start: int) -> TokenView {
    TokenView { tok_type: kind, value: None, line: line_at(src, start) }
}

/// A token that carries its lexeme, the characters from `start` up to `end`.
pub open spec fn spelled(kind: TokenType, src: Seq<char>, start: int, end: int) -> TokenView {
    TokenView { tok_type: kind, value: Some(src.subrange(start, end)), line: line_at(src, start) }
}

/// The keyword that `text` spells, if any. The match is exact and case-sensitive.
pub open spec fn keyword(text: Seq<char>) -> Option<TokenType> {
    if text == "char"@ {
        Some(TokenType::TokTypeChar)
    } else if text == "string"@ {
        Some(TokenType::TokTypeString)
    } else if text == "f32"@ {
        Some(TokenType::TokTypef32)
    } else if text == "f64"@ {
        Some(TokenType::TokTypef64)
    } else if text == "i64"@ {
        Some(TokenType::TokTypei64)
    } else if text == "u64"@ {
        Some(TokenType::TokTypeu64)
    } else if text == "i32"@ {
        Some(TokenType::TokTypei32)
    } else if text == "u32"@ {
        Some(TokenType::TokTypeu32)
    } else if text == "i16"@ {
        Some(TokenType::TokTypei16)
    } else if text == "u16"@ {
        Some(TokenType::TokTypeu16)
    } else if text == "i8"@ {
        Some(TokenType::TokTypei8)
    } else if text == "u8"@ {
        Some(TokenType::TokTypeu8)
    } else if text == "bool"@ {
        Some(TokenType::TokTypeBool)
    } else if text == "struct"@ {
        Some(TokenType::TokStruct)
    } else if text == "fun"@ {
        Some(TokenType::TokFun)
    } else if text == "enum"@ {
        Some(TokenType::TokEnum)
    } else if text == "const"@ {
        Some(TokenType::TokConst)
    } else if text == "try"@ {
        Some(TokenType::TokTry)
    } else if text == "catch"@ {
        Some(TokenType::TokCatch)
    } else if text == "throw"@ {
        Some(TokenType::TokThrow)
    } else if text == "return"@ {
        Some(TokenType::TokReturn)
    } else if text == "bellyflop"@ {
        Some(TokenType::TokBellyflop)
    } else if text == "dive"@ {
        Some(TokenType::TokDive)
    } else if text == "from"@ {
        Some(TokenType::TokFrom)
    } else if text == "switch"@ {
        Some(TokenType::TokSwitch)
    } else if text == "case"@ {
        Some(TokenType::TokCase)
    } else if text == "default"@ {
        Some(TokenType::TokDefault)
    } else if text == "if"@ {
        Some(TokenType::TokIf)
    } else if text == "else"@ {
        Some(TokenType::TokElse)
    } else if text == "type"@ {
        Some(TokenType::TokAlias)
    } else if text == "do"@ {
        Some(TokenType::TokDo)
    } else if text == "while"@ {
        Some(TokenType::TokWhile)
    } else if text == "break"@ {
        Some(TokenType::TokBreak)
    } else if text == "continue"@ {
        Some(TokenType::TokContinue)
    } else if text == "for"@ {
        Some(TokenType::TokFor)
    } else if text == "in"@ {
        Some(TokenType::TokIn)
    } else if text == "when"@ {
        Some(TokenType::TokWhen)
    } else if text == "main"@ {
        Some(TokenType::TokMain)
    } else {
        None
    }
}

/// The punctuation mark or operator that starts with `c`, given the two
/// characters after it, together with the number of characters it spans.
/// The longest spelling wins. `None` for a character that starts none.
pub open spec fn symbol(c: char, c1: Option<char>, c2: Option<char>) -> Option<(TokenType, int)> {
    if c == ':' {
        if c1 == Some(':') {
            Some((TokenType::TokDoubleColon, 2))
        } else {
            Some((TokenType::TokColon, 1))
        }
    } else if c == '!' {
        if c1 == Some('=') {
            Some((TokenType::TokNotEquals, 2))
        } else {
            Some((TokenType::TokBang, 1))
        }
    } else if c == '^' {
        if c1 == Some('=') {
            Some((TokenType::TokBitXorEqual, 2))
        } else {
            Some((TokenType::TokBitXor, 1))
        }
    } else if c == '~' {
        if c1 == Some('=') {
            Some((TokenType::TokBitNotEqual, 2))
        } else {
            Some((TokenType::TokBitNot, 1))
        }
    } else if c == '-' {
        if c1 == Some('>') {
            Some((TokenType::TokArrow, 2))
        } else if c1 == Some('-') {
            Some((TokenType::TokDecrement, 2))
        } else if c1 == Some('=') {
            Some((TokenType::TokMinusEqual, 2))
        } else {
            Some((TokenType::TokMinus, 1))
        }
    } else if c == '+' {
        if c1 == Some('+') {
            Some((TokenType::TokIncrement, 2))
        } else if c1 == Some('=') {
            Some((TokenType::TokPlusEqual, 2))
        } else {
            Some((TokenType::TokPlus, 1))
        }
    } else if c == '*' {
        if c1 == Some('=') {
            Some((TokenType::TokTimesEqual, 2))
        } else {
            Some((TokenType::TokAsterisk, 1))
        }
    } else if c == '%' {
        if c1 == Some('=') {
            Some((TokenType::TokModuloEqual, 2))
        } else {
            Some((TokenType::TokModulo, 1))
        }
    } else if c == '<' {
        if c1 == Some('=') {
            Some((TokenType::TokLessEqual, 2))
        } else if c1 == Some('<') {
            Some((TokenType::TokLeftShift, 2))
        } else {
            Some((TokenType::TokLeftAngle, 1))
        }
    } else if c == '>' {
        if c1 == Some('=') {
            Some((TokenType::TokGreaterEqual, 2))
        } else if c1 == Some('>') {
            Some((TokenType::TokRightShift, 2))
        } else {
            Some((TokenType::TokRightAngle, 1))
        }
    } else if c == '.' {
        if c1 == Some('.') && c2 == Some('.') {
            Some((TokenType::TokEllipsis, 3))
        } else if c1 == Some('.') {
            Some((TokenType::TokRange, 2))
        } else {
            Some((TokenType::TokDot, 1))
        }
    } else if c == '=' {
        if c1 == Some('=') {
            Some((TokenType::TokEquals, 2))
        } else {
            Some((TokenType::TokAssign, 1))
        }
    } else if c == '|' {
        if c1 == Some('|') {
            Some((TokenType::TokOr, 2))
        } else if c1 == Some('=') {
            Some((TokenType::TokBitOrEqual, 2))
        } else {
            Some((TokenType::TokBitOr, 1))
        }
    } else if c == '&' {
        if c1 == Some('&') {
            Some((TokenType::TokAnd, 2))
        } else if c1 == Some('=') {
            Some((TokenType::TokBitAndEqual, 2))
        } else {
            Some((TokenType::TokAmpersand, 1))
        }
    } else if c == '$' {
        Some((TokenType::TokDollar, 1))
    } else if c == '?' {
        Some((TokenType::TokQuestion, 1))
    } else if c == '#' {
        Some((TokenType::TokPound, 1))
    } else if c == ';' {
        Some((TokenType::TokSemi, 1))
    } else if c == '{' {
        Some((TokenType::TokLeftBrace, 1))
    } else if c == '}' {
        Some((TokenType::TokRightBrace, 1))
    } else if c == '(' {
        Some((TokenType::TokLeftParen, 1))
    } else if c == ')' {
        Some((TokenType::TokRightParen, 1))
    } else if c == '[' {
        Some((TokenType::TokLeftBracket, 1))
    } else if c == ']' {
        Some((TokenType::TokRightBracket, 1))
    } else if c == ',' {
        Some((TokenType::TokComma, 1))
    } else {
        None
    }
}

/// How each punctuation mark and operator that [`symbol`] knows is written.
/// `None` for every other kind of token.
pub open spec fn spelling(kind: TokenType) -> Option<Seq<char>> {
    match kind {
        TokenType::TokColon => Some(seq![':']),
        TokenType::TokDoubleColon => Some(seq![':', ':']),
        TokenType::TokBang => Some(seq!['!']),
        TokenType::TokNotEquals => Some(seq!['!', '=']),
        TokenType::TokBitXor => Some(seq!['^']),
        TokenType::TokBitXorEqual => Some(seq!['^', '=']),
        TokenType::TokBitNot => Some(seq!['~']),
        TokenType::TokBitNotEqual => Some(seq!['~', '=']),
        TokenType::TokMinus => Some(seq!['-']),
        TokenType::TokArrow => Some(seq!['-', '>']),
        TokenType::TokDecrement => Some(seq!['-', '-']),
        TokenType::TokMinusEqual => Some(seq!['-', '=']),
        TokenType::TokPlus => Some(seq!['+']),
        TokenType::TokIncrement => Some(seq!['+', '+']),
        TokenType::TokPlusEqual => Some(seq!['+', '=']),
        TokenType::TokAsterisk => Some(seq!['*']),
        TokenType::TokTimesEqual => Some(seq!['*', '=']),
        TokenType::TokModulo => Some(seq!['%']),
        TokenType::TokModuloEqual => Some(seq!['%', '=']),
        TokenType::TokLeftAngle => Some(seq!['<']),
        TokenType::TokLessEqual => Some(seq!['<', '=']),
        TokenType::TokLeftShift => Some(seq!['<', '<']),
        TokenType::TokRightAngle => Some(seq!['>']),
        TokenType::TokGreaterEqual => Some(seq!['>', '=']),
        TokenType::TokRightShift => Some(seq!['>', '>']),
        TokenType::TokDot => Some(seq!['.']),
        TokenType::TokRange => Some(seq!['.', '.']),
        TokenType::TokEllipsis => Some(seq!['.', '.', '.']),
        TokenType::TokAssign => Some(seq!['=']),
        TokenType::TokEquals => Some(seq!['=', '=']),
        TokenType::TokBitOr => Some(seq!['|']),
        TokenType::TokOr => Some(seq!['|', '|']),
        TokenType::TokBitOrEqual => Some(seq!['|', '=']),
        TokenType::TokAmpersand => Some(seq!['&']),
        TokenType::TokAnd => Some(seq!['&', '&']),
        TokenType::TokBitAndEqual => Some(seq!['&', '=']),
        TokenType::TokDollar => Some(seq!['$']),
        TokenType::TokQuestion => Some(seq!['?']),
        TokenType::TokPound => Some(seq!['#']),
        TokenType::TokSemi => Some(seq![';']),
        TokenType::TokLeftBrace => Some(seq!['{']),
        TokenType::TokRightBrace => Some(seq!['}']),
        TokenType::TokLeftParen => Some(seq!['(']),
        TokenType::TokRightParen => Some(seq![')']),
        TokenType::TokLeftBracket => Some(seq!['[']),
        TokenType::TokRightBracket => Some(seq![']']),
        TokenType::TokComma => Some(seq![',']),
        _ => None,
    }
}

/// Whether the characters of `text` stand in `src` from `pos` on.
pub open spec fn stands_at(src: Seq<char>, pos: int, text: Seq<char>) -> bool {
    forall|i: int| 0 <= i < text.len() ==> peek_at(src, pos + i) == Some(#[trigger] text[i])
}

/// What the scanner does with one lexeme.
pub enum Step {
    /// It emits `tokens` (none for white space, comments and characters of no
    /// meaning; two for a number that runs into `..`) and goes on at `next`.
    Emit { tokens: Seq<TokenView>, next: int },
    /// It gives up with `error`, at position `at`.
    Fault { error: LexErrorView, at: int },
}

/// White space at `pos`: a line feed is a token, anything else is skipped.
pub open spec fn space_step(src: Seq<char>, pos: int) -> Step {
    if src[pos] == '\n' {
        Step::Emit { tokens: seq![fixed(TokenType::TokNewline, src, pos)], next: pos + 1 }
    } else {
        Step::Emit { tokens: Seq::empty(), next: pos + 1 }
    }
}

/// Where the word ends that starts at `pos`.
pub open spec fn word_end(src: Seq<char>, pos: int) -> int {
    run_end(src, pos + 1, Run::Word)
}

/// The keyword or identifier that starts at `pos`. Only an identifier
/// carries its text.
pub open spec fn word_token(src: Seq<char>, pos: int) -> TokenView {
    match keyword(src.subrange(pos, word_end(src, pos))) {
        Some(kind) => fixed(kind, src, pos),
        None => spelled(TokenType::TokIdentifier, src, pos, word_end(src, pos)),
    }
}

/// A word at `pos`.
pub open spec fn word_step(src: Seq<char>, pos: int) -> Step {
    Step::Emit { tokens: seq![word_token(src, pos)], next: word_end(src, pos) }
}

/// A number literal from `pos` up to `dot`, where two dots or three follow:
/// the literal without the dots, then `..` or `...`.
pub open spec fn number_then_dots(src: Seq<char>, pos: int, dot: int) -> Step {
    let number = spelled(TokenType::TokNumLiteral, src, pos, dot);
    if peek_at(src, dot + 2) == Some('.') {
        Step::Emit {
            tokens: seq![number, fixed(TokenType::TokEllipsis, src, dot)],
            next: dot + 3,
        }
    } else {
        Step::Emit { tokens: seq![number, fixed(TokenType::TokRange, src, dot)], next: dot + 2 }
    }
}

/// A number literal at `pos`: digits, then at most one decimal point with
/// more digits. A dot that another dot follows is no decimal point; it ends
/// the literal and opens `..` or `...`. A second decimal point is an error.
pub open spec fn number_step(src: Seq<char>, pos: int) -> Step {
    let whole = run_end(src, pos + 1, Run::Digits);
    if peek_at(src, whole) != Some('.') {
        Step::Emit { tokens: seq![spelled(TokenType::TokNumLiteral, src, pos, whole)], next: whole }
    } else if peek_at(src, whole + 1) == Some('.') {
        number_then_dots(src, pos, whole)
    } else {
        let fraction = run_end(src, whole + 1, Run::Digits);
        if peek_at(src, fraction) != Some('.') {
            Step::Emit {
                tokens: seq![spelled(TokenType::TokNumLiteral, src, pos, fraction)],
                next: fraction,
            }
        } else if peek_at(src, fraction + 1) == Some('.') {
            number_then_dots(src, pos, fraction)
        } else {
            Step::Fault {
                error: LexErrorView::DuplicateDecimalPoint { line: line_at(src, fraction) },
                at: fraction,
            }
        }
    }
}

/// A `/` at `pos`: a line comment, a block comment, or the division sign.
pub open spec fn slash_step(src: Seq<char>, pos: int) -> Step {
    if peek_at(src, pos + 1) == Some('/') {
        Step::Emit { tokens: Seq::empty(), next: line_comment_end(src, pos + 2) }
    } else if peek_at(src, pos + 1) == Some('*') {
        Step::Emit { tokens: Seq::empty(), next: block_comment_end(src, pos + 2) }
    } else {
        Step::Emit { tokens: seq![fixed(TokenType::TokDivide, src, pos)], next: pos + 1 }
    }
}

/// A string literal at `pos`. Its text holds both quotes, or only the first
/// one if the source ends before the literal is closed.
pub open spec fn string_step(src: Seq<char>, pos: int) -> Step {
    Step::Emit {
        tokens: seq![spelled(TokenType::TokStringLiteral, src, pos, string_end(src, pos))],
        next: string_end(src, pos),
    }
}

/// A macro marker at `pos`: the `@` and the name behind it, which runs up
/// to the next white space. An `@` without a name is an error.
pub open spec fn marker_step(src: Seq<char>, pos: int) -> Step {
    let end = run_end(src, pos + 1, Run::MarkerName);
    if end == pos + 1 {
        Step::Fault { error: LexErrorView::InvalidMacroMarker { line: line_at(src, pos) }, at: pos }
    } else {
        Step::Emit { tokens: seq![spelled(TokenType::TokAt, src, pos, end)], next: end }
    }
}

/// Punctuation or an operator at `pos`; a character that starts neither is
/// dropped.
pub open spec fn symbol_step(src: Seq<char>, pos: int) -> Step {
    match symbol(src[pos], peek_at(src, pos + 1), peek_at(src, pos + 2)) {
        Some((kind, span)) => Step::Emit { tokens: seq![fixed(kind, src, pos)], next: pos + span },
        None => Step::Emit { tokens: Seq::empty(), next: pos + 1 },
    }
}

/// What the scanner does at `pos`, a position inside the source. The first
/// character decides.
pub open spec fn step(src: Seq<char>, pos: int) -> Step
    recommends
        0 <= pos < src.len(),
{
    let c = src[pos];
    if white_space(c) {
        space_step(src, pos)
    } else if alphabetic(c) {
        word_step(src, pos)
    } else if numeric(c) {
        number_step(src, pos)
    } else if c == '/' {
        slash_step(src, pos)
    } else if c == '"' {
        string_step(src, pos)
    } else if c == '@' {
        marker_step(src, pos)
    } else {
        symbol_step(src, pos)
    }
}

/// The result of scanning a source from some position on.
pub struct Scan {
    /// The tokens found, in order. After a complete scan the last one is the
    /// end-of-file token.
    pub tokens: Seq<TokenView>,
    /// The error that stopped the scan, if one did.
    pub fault: Option<LexErrorView>,
    /// Where the scan stopped: the end of the source, or the place of the error.
    pub stop: int,
}

/// The end-of-file token of `src`. It carries the line on which the source ends.
pub open spec fn eof_token(src: Seq<char>) -> TokenView {
    fixed(TokenType::TokEOF, src, src.len() as int)
}

/// Scans `src` from `from` to its end.
pub open spec fn scan(src: Seq<char>, from: int) -> Scan
    decreases src.len() - from,
    via scan_terminates
{
    if from < 0 || from >= src.len() {
        Scan { tokens: seq![eof_token(src)], fault: None, stop: from }
    } else {
        match step(src, from) {
            Step::Fault { error, at } => Scan {
                tokens: Seq::empty(),
                fault: Some(error),
                stop: at,
            },
            Step::Emit { tokens, next } => {
                let rest = scan(src, next);
                Scan { tokens: tokens + rest.tokens, fault: rest.fault, stop: rest.stop }
            },
        }
    }
}

#[via_fn]
proof fn scan_terminates(src: Seq<char>, from: int) {
    if 0 <= from < src.len() {
        lemma_step_advances(src, from);
    }
}

/// A run that starts inside the source ends inside it, holds only
/// characters of its kind, and stops at the first character that is not.
pub proof fn lemma_run_end(src: Seq<char>, from: int, run: Run)
    requires
        0 <= from <= src.len(),
    ensures
        from <= run_end(src, from, run) <= src.len(),
        forall|i: int| from <= i < run_end(src, from, run) ==> run.admits(#[trigger] src[i]),
        run_end(src, from, run) < src.len() ==> !run.admits(src[run_end(src, from, run)]),
    decreases src.len() - from,
{
    if from < src.len() && run.admits(src[from]) {
        lemma_run_end(src, from + 1, run);
    }
}

/// A block comment whose body starts inside the source ends inside it:
/// right behind the first `*/` of the body, or, when the body holds none,
/// at the end of the source.
pub proof fn lemma_block_comment_end(src: Seq<char>, from: int)
    requires
        0 <= from <= src.len(),
    ensures
        from <= block_comment_end(src, from) <= src.len(),
        forall|i: int| from <= i < block_comment_end(src, from) - 2 ==> !closes_at(src, i),
        ({
            ||| from <= block_comment_end(src, from) - 2 && closes_at(
                src,
                block_comment_end(src, from) - 2,
            )
            ||| block_comment_end(src, from) == src.len() && forall|i: int|
                from <= i ==> !closes_at(src, i)
        }),
    decreases src.len() - from,
{
    if from < src.len() && !closes_at(src, from) {
        lemma_block_comment_end(src, from + 1);
    }
}

/// Every step makes progress and stays inside the source: it goes on at a
/// later position, or fails at a position that is still in the source.
pub proof fn lemma_step_advances(src: Seq<char>, pos: int)
    requires
        0 <= pos < src.len(),
    ensures
        step(src, pos) matches Step::Emit { next, .. } ==> pos < next <= src.len(),
        step(src, pos) matches Step::Fault { at, .. } ==> pos <= at < src.len(),
{
    lemma_run_end(src, pos + 1, Run::Word);
    lemma_run_end(src, pos + 1, Run::Digits);
    lemma_run_end(src, pos + 1, Run::StringBody);
    lemma_run_end(src, pos + 1, Run::MarkerName);
    let whole = run_end(src, pos + 1, Run::Digits);
    if whole < src.len() {
        lemma_run_end(src, whole + 1, Run::Digits);
    }
    if pos + 2 <= src.len() {
        lemma_run_end(src, pos + 2, Run::LineRest);
        lemma_block_comment_end(src, pos + 2);
    }
}

/// Lines only go up along the source.
pub proof fn lemma_line_at_monotone(src: Seq<char>, i: int, j: int)
    requires
        i <= j,
    ensures
        line_at(src, i) <= line_at(src, j),
    decreases j - i,
{
    if i < j {
        lemma_line_at_monotone(src, i, j - 1);
    }
}

/// A position is on a line no later than one line per character before it.
pub proof fn lemma_line_at_bound(src: Seq<char>, pos: int)
    ensures
        1 <= line_at(src, pos),
        pos >= 0 ==> line_at(src, pos) <= pos + 1,
        line_at(src, pos) <= src.len() + 1,
    decreases pos,
{
    if pos > 0 {
        lemma_line_at_bound(src, pos - 1);
    }
}

/// Whether `tokens` ends with the end-of-file token and holds no other.
pub open spec fn single_eof_at_end(tokens: Seq<TokenView>) -> bool {
    &&& tokens.len() >= 1
    &&& tokens.last().tok_type == TokenType::TokEOF
    &&& forall|i: int| 0 <= i < tokens.len() - 1 ==> (#[trigger] tokens[i]).tok_type != TokenType::TokEOF
}

/// No lexeme of the source becomes an end-of-file token.
pub proof fn lemma_step_never_eof(src: Seq<char>, pos: int)
    requires
        0 <= pos < src.len(),
    ensures
        step(src, pos) matches Step::Emit { tokens, .. } ==> forall|i: int|
            0 <= i < tokens.len() ==> (#[trigger] tokens[i]).tok_type != TokenType::TokEOF,
{
}

/// A scan stops inside the source. One that meets no error stops at the
/// end, and its tokens end with the end-of-file token, which is the only
/// one of its kind among them.
pub proof fn lemma_scan_ends_with_single_eof(src: Seq<char>, from: int)
    requires
        0 <= from <= src.len(),
    ensures
        from <= scan(src, from).stop <= src.len(),
        scan(src, from).fault is None ==> scan(src, from).stop == src.len(),
        scan(src, from).fault is None ==> single_eof_at_end(scan(src, from).tokens),
        scan(src, from).fault is None ==> scan(src, from).tokens.last() == eof_token(src),
    decreases src.len() - from,
{
    if from < src.len() {
        lemma_step_advances(src, from);
        lemma_step_never_eof(src, from);
        match step(src, from) {
            Step::Fault { .. } => {},
            Step::Emit { tokens, next } => {
                lemma_scan_ends_with_single_eof(src, next);
            },
        }
    }
}

/// The longest match wins. Where [`symbol`] finds a token, the token is
/// written in the source at that place, and no punctuation mark or operator
/// that is written there is longer. Where it finds none, none is written
/// there.
pub proof fn lemma_symbol_is_longest_match(src: Seq<char>, pos: int)
    requires
        0 <= pos < src.len(),
    ensures
        match symbol(src[pos], peek_at(src, pos + 1), peek_at(src, pos + 2)) {
            Some((kind, span)) => {
                &&& spelling(kind) matches Some(text)
                &&& text.len() == span
                &&& stands_at(src, pos, text)
                &&& forall|other: TokenType|
                    (#[trigger] spelling(other)) matches Some(longer) ==> (stands_at(
                        src,
                        pos,
                        longer,
                    ) ==> longer.len() <= span)
            },
            None => forall|other: TokenType|
                (#[trigger] spelling(other)) matches Some(written) ==> !stands_at(
                    src,
                    pos,
                    written,
                ),
        },
{
    let found = symbol(src[pos], peek_at(src, pos + 1), peek_at(src, pos + 2));
    assert forall|other: TokenType|
        (#[trigger] spelling(other)) is Some && stands_at(
            src,
            pos,
            spelling(other)->0,
        ) implies (found matches Some((_, span)) && spelling(other)->0.len() <= span) by {
        let written = spelling(other)->0;
        assert(peek_at(src, pos + 0) == Some(written[0]));
        if written.len() >= 2 {
            assert(peek_at(src, pos + 1) == Some(written[1]));
        }
        if written.len() >= 3 {
            assert(peek_at(src, pos + 2) == Some(written[2]));
        }
    }
}

/// Whether the lines of `tokens` never go down and lie between `low` and
/// `high`.
pub open spec fn lines_ascend(tokens: Seq<TokenView>, low: nat, high: nat) -> bool {
    &&& forall|i: int| 0 <= i < tokens.len() ==> low <= (#[trigger] tokens[i]).line <= high
    &&& forall|i: int, j: int|
        0 <= i <= j < tokens.len() ==> (#[trigger] tokens[i]).line <= (#[trigger] tokens[j]).line
}

/// The tokens of one step are in the order of the source and carry lines
/// of the stretch that the step covers.
proof fn lemma_step_lines_ascend(src: Seq<char>, pos: int)
    requires
        0 <= pos < src.len(),
    ensures
        step(src, pos) matches Step::Emit { tokens, next } ==> lines_ascend(
            tokens,
            line_at(src, pos),
            line_at(src, next),
        ),
{
    lemma_step_advances(src, pos);
    let whole = run_end(src, pos + 1, Run::Digits);
    let fraction = run_end(src, whole + 1, Run::Digits);
    lemma_run_end(src, pos + 1, Run::Digits);
    if whole < src.len() {
        lemma_run_end(src, whole + 1, Run::Digits);
    }
    match step(src, pos) {
        Step::Emit { tokens, next } => {
            lemma_line_at_monotone(src, pos, next);
            if pos <= whole <= next {
                lemma_line_at_monotone(src, pos, whole);
                lemma_line_at_monotone(src, whole, next);
            }
            if pos <= fraction <= next {
                lemma_line_at_monotone(src, pos, fraction);
                lemma_line_at_monotone(src, fraction, next);
            }
        },
        Step::Fault { .. } => {},
    }
}

/// Tokens come in the order of the source: along the result of a scan,
/// lines never go down, and none lies outside the part that was scanned.
pub proof fn lemma_scan_lines_ascend(src: Seq<char>, from: int)
    requires
        0 <= from <= src.len(),
    ensures
        lines_ascend(scan(src, from).tokens, line_at(src, from), line_at(src, src.len() as int)),
    decreases src.len() - from,
{
    lemma_line_at_monotone(src, from, src.len() as int);
    if from < src.len() {
        lemma_step_advances(src, from);
        lemma_step_lines_ascend(src, from);
        match step(src, from) {
            Step::Fault { .. } => {},
            Step::Emit { tokens, next } => {
                lemma_scan_lines_ascend(src, next);
                lemma_line_at_monotone(src, from, next);
                lemma_line_at_monotone(src, next, src.len() as int);
            },
        }
    }
}

} // verus!
