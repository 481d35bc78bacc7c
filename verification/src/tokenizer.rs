//! The tokenizer.

use vstd::prelude::*;
use vstd::string::StringExecFns;
use crate::decimal::{decimal, push_decimal};
use crate::lexis::{
    block_comment_end, keyword, lemma_line_at_monotone, lemma_run_end,
    lemma_scan_ends_with_single_eof, lemma_step_advances, line_at, marker_step, number_step,
    peek_at, run_end, scan, single_eof_at_end, slash_step, space_step, string_step, symbol,
    symbol_step, word_step, Run, Step,
};
use crate::settings::Settings;
use crate::token::{LexError, Token, TokenType, TokenView};
use crate::zlog::{reports, verbose, Level};

verus! {

/// A scanner over one source text.
///
/// It owns the text, a cursor into it and the number of the line that the
/// cursor is on.
pub struct Tokenizer<'a> {
    src: Vec<char>,
    index: usize,
    line: u32,
    settings: &'a Settings,
}

/// The characters of `text`, in order.
fn chars_of(text: &str) -> (chars: Vec<char>)
    ensures
        chars@ == text@,
{
    let mut chars: Vec<char> = Vec::new();
    for c in rest: text.chars()
        invariant
            chars@ == rest.history(),
    {
        chars.push(c);
    }
    assert(chars@ =~= text@);
    chars
}

/// Whether `c` may stand in a run of kind `run`.
fn in_run(run: Run, c: char) -> (b: bool)
    ensures
        b == run.admits(c),
{
    match run {
        Run::Digits => c.is_numeric(),
        Run::Word => c.is_alphanumeric() || c == '_',
        Run::LineRest => c != '\n',
        Run::StringBody => c != '"',
        Run::MarkerName => !c.is_whitespace(),
    }
}

/// Whether `found` is the character `wanted`.
fn is_char(found: Option<char>, wanted: char) -> (b: bool)
    ensures
        b == (found == Some(wanted)),
{
    match found {
        Some(c) => c == wanted,
        None => false,
    }
}

/// Appends a token to `out`.
fn emit(out: &mut Vec<Token>, tok_type: TokenType, value: Option<String>, line: u32)
    ensures
        final(out).deep_view() == old(out).deep_view().push(
            (Token { tok_type, value, line })@,
        ),
{
    out.push(Token { tok_type, value, line });
    assert(out.deep_view() =~= old(out).deep_view().push((Token { tok_type, value, line })@));
}

/// The punctuation mark or operator that starts with `c`, given the two
/// characters after it, and the number of characters it spans.
fn symbol_of(c: char, c1: Option<char>, c2: Option<char>) -> (found: Option<(TokenType, usize)>)
    ensures
        match found {
            Some((kind, span)) => symbol(c, c1, c2) == Some((kind, span as int)),
            None => symbol(c, c1, c2) is None,
        },
{
    match c {
        ':' => if is_char(c1, ':') {
            Some((TokenType::TokDoubleColon, 2))
        } else {
            Some((TokenType::TokColon, 1))
        },
        '!' => if is_char(c1, '=') {
            Some((TokenType::TokNotEquals, 2))
        } else {
            Some((TokenType::TokBang, 1))
        },
        '^' => if is_char(c1, '=') {
            Some((TokenType::TokBitXorEqual, 2))
        } else {
            Some((TokenType::TokBitXor, 1))
        },
        '~' => if is_char(c1, '=') {
            Some((TokenType::TokBitNotEqual, 2))
        } else {
            Some((TokenType::TokBitNot, 1))
        },
        '-' => if is_char(c1, '>') {
            Some((TokenType::TokArrow, 2))
        } else if is_char(c1, '-') {
            Some((TokenType::TokDecrement, 2))
        } else if is_char(c1, '=') {
            Some((TokenType::TokMinusEqual, 2))
        } else {
            Some((TokenType::TokMinus, 1))
        },
        '+' => if is_char(c1, '+') {
            Some((TokenType::TokIncrement, 2))
        } else if is_char(c1, '=') {
            Some((TokenType::TokPlusEqual, 2))
        } else {
            Some((TokenType::TokPlus, 1))
        },
        '*' => if is_char(c1, '=') {
            Some((TokenType::TokTimesEqual, 2))
        } else {
            Some((TokenType::TokAsterisk, 1))
        },
        '%' => if is_char(c1, '=') {
            Some((TokenType::TokModuloEqual, 2))
        } else {
            Some((TokenType::TokModulo, 1))
        },
        '<' => if is_char(c1, '=') {
            Some((TokenType::TokLessEqual, 2))
        } else if is_char(c1, '<') {
            Some((TokenType::TokLeftShift, 2))
        } else {
            Some((TokenType::TokLeftAngle, 1))
        },
        '>' => if is_char(c1, '=') {
            Some((TokenType::TokGreaterEqual, 2))
        } else if is_char(c1, '>') {
            Some((TokenType::TokRightShift, 2))
        } else {
            Some((TokenType::TokRightAngle, 1))
        },
        '.' => if is_char(c1, '.') && is_char(c2, '.') {
            Some((TokenType::TokEllipsis, 3))
        } else if is_char(c1, '.') {
            Some((TokenType::TokRange, 2))
        } else {
            Some((TokenType::TokDot, 1))
        },
        '=' => if is_char(c1, '=') {
            Some((TokenType::TokEquals, 2))
        } else {
            Some((TokenType::TokAssign, 1))
        },
        '|' => if is_char(c1, '|') {
            Some((TokenType::TokOr, 2))
        } else if is_char(c1, '=') {
            Some((TokenType::TokBitOrEqual, 2))
        } else {
            Some((TokenType::TokBitOr, 1))
        },
        '&' => if is_char(c1, '&') {
            Some((TokenType::TokAnd, 2))
        } else if is_char(c1, '=') {
            Some((TokenType::TokBitAndEqual, 2))
        } else {
            Some((TokenType::TokAmpersand, 1))
        },
        '$' => Some((TokenType::TokDollar, 1)),
        '?' => Some((TokenType::TokQuestion, 1)),
        '#' => Some((TokenType::TokPound, 1)),
        ';' => Some((TokenType::TokSemi, 1)),
        '{' => Some((TokenType::TokLeftBrace, 1)),
        '}' => Some((TokenType::TokRightBrace, 1)),
        '(' => Some((TokenType::TokLeftParen, 1)),
        ')' => Some((TokenType::TokRightParen, 1)),
        '[' => Some((TokenType::TokLeftBracket, 1)),
        ']' => Some((TokenType::TokRightBracket, 1)),
        ',' => Some((TokenType::TokComma, 1)),
        _ => None,
    }
}

impl<'a> Tokenizer<'a> {
    /// The source text.
    pub closed spec fn source(&self) -> Seq<char> {
        self.src@
    }

    /// The position of the next character to scan.
    pub closed spec fn cursor(&self) -> int {
        self.index as int
    }

    /// The line that the cursor is on.
    pub closed spec fn line(&self) -> nat {
        self.line as nat
    }

    /// The settings that the tokenizer was made with.
    pub closed spec fn spec_settings(&self) -> &'a Settings {
        self.settings
    }

    /// The cursor is inside the source or at its end, the line counter
    /// agrees with the cursor, and it can count every line of the source.
    pub open spec fn wf(&self) -> bool {
        &&& 0 <= self.cursor() <= self.source().len()
        &&& self.line() == line_at(self.source(), self.cursor())
        &&& line_at(self.source(), self.source().len() as int) <= u32::MAX
    }

    /// `self` is `before` moved along the same source.
    pub open spec fn advanced(&self, before: &Self) -> bool {
        &&& self.wf()
        &&& self.source() == before.source()
        &&& self.settings() == before.settings()
        &&& self.cursor() >= before.cursor()
    }

    /// Whether `result` is what tokenizing `src` from position `from` on
    /// returns: the tokens that [`scan`] finds, or the error that stops it.
    pub open spec fn tokenizes(
        src: Seq<char>,
        from: int,
        result: Result<Vec<Token>, LexError>,
    ) -> bool {
        match result {
            Ok(tokens) => {
                &&& scan(src, from).fault is None
                &&& tokens.deep_view() == scan(src, from).tokens
            },
            Err(error) => scan(src, from).fault == Some(error@),
        }
    }

    /// A tokenizer at the start of `src`.
    ///
    /// Lines are counted in a `u32`, so the source may not have more lines
    /// than that.
    pub fn new(src: String, settings: &'a Settings) -> (tokenizer: Self)
        requires
            line_at(src@, src@.len() as int) <= u32::MAX,
        ensures
            tokenizer.wf(),
            tokenizer.source() == src@,
            tokenizer.cursor() == 0,
            tokenizer.line() == 1,
            tokenizer.settings() == settings,
    {
        Tokenizer { src: chars_of(src.as_str()), index: 0, line: 1, settings }
    }

    /// A tokenizer at the start of `src`, or nothing if the source has more
    /// lines than a `u32` can count.
    pub fn try_new(src: String, settings: &'a Settings) -> (tokenizer: Option<Self>)
        ensures
            tokenizer is Some <==> line_at(src@, src@.len() as int) <= u32::MAX,
            tokenizer matches Some(t) ==> {
                &&& t.wf()
                &&& t.source() == src@
                &&& t.cursor() == 0
                &&& t.line() == 1
                &&& t.settings() == settings
            },
    {
        let chars = chars_of(src.as_str());
        let mut line: u32 = 1;
        let mut i: usize = 0;
        while i < chars.len()
            invariant
                chars@ == src@,
                i <= chars.len(),
                line == line_at(chars@, i as int),
            decreases chars.len() - i,
        {
            if chars[i] == '\n' {
                if line == u32::MAX {
                    proof {
                        lemma_line_at_monotone(chars@, i + 1, chars.len() as int);
                    }
                    return None;
                }
                line = line + 1;
            }
            i = i + 1;
        }
        Some(Tokenizer { src: chars, index: 0, line: 1, settings })
    }

    /// What is reported of a finished run: the line on which the cursor
    /// stands and the number of tokens.
    pub open spec fn completion_message(line: nat, count: nat) -> Seq<char> {
        "Tokenization Completed. Lines: "@ + decimal(line) + ", Tokens: "@ + decimal(count)
    }

    /// The line that reports a finished run which gave `tokens`, if the
    /// settings ask for one.
    pub fn report(&self, tokens: &Vec<Token>) -> (line: Option<String>)
        ensures
            reports(
                line.deep_view(),
                Level::Verbose,
                Self::completion_message(self.line(), tokens@.len()),
                *self.settings(),
            ),
    {
        let mut message = "Tokenization Completed. Lines: ".to_owned();
        push_decimal(&mut message, self.line as u64);
        message.append(", Tokens: ");
        push_decimal(&mut message, tokens.len() as u64);
        verbose(message.as_str(), self.settings)
    }

    /// The settings that the tokenizer was made with.
    #[verifier::when_used_as_spec(spec_settings)]
    pub fn settings(&self) -> (settings: &'a Settings)
        ensures
            settings == self.spec_settings(),
    {
        self.settings
    }

    /// The character `forward` places after the cursor, without consuming
    /// anything.
    fn peek(&self, forward: usize) -> (c: Option<char>)
        requires
            self.wf(),
        ensures
            c == peek_at(self.source(), self.cursor() + forward),
    {
        if forward < self.src.len() - self.index {
            Some(self.src[self.index + forward])
        } else {
            None
        }
    }

    /// Whether the character `forward` places after the cursor is `wanted`.
    fn next_is(&self, forward: usize, wanted: char) -> (b: bool)
        requires
            self.wf(),
        ensures
            b == (peek_at(self.source(), self.cursor() + forward) == Some(wanted)),
    {
        is_char(self.peek(forward), wanted)
    }

    /// Moves the cursor `amount` characters on, or to the end of the source
    /// if that comes first, and counts the line feeds it passes.
    fn consume(&mut self, amount: usize)
        requires
            old(self).wf(),
        ensures
            final(self).advanced(old(self)),
            final(self).cursor() == if old(self).cursor() + amount <= old(self).source().len() {
                old(self).cursor() + amount
            } else {
                old(self).source().len() as int
            },
    {
        let mut left: usize = amount;
        while left > 0 && self.index < self.src.len()
            invariant
                self.advanced(old(self)),
                left <= amount,
                self.cursor() == old(self).cursor() + (amount - left),
            decreases left,
        {
            if self.src[self.index] == '\n' {
                proof {
                    lemma_line_at_monotone(self.src@, self.index + 1, self.src.len() as int);
                }
                self.line = self.line + 1;
            }
            self.index = self.index + 1;
            left = left - 1;
        }
    }

    /// Moves the cursor over the longest run of `run` characters in front
    /// of it.
    fn skip_run(&mut self, run: Run)
        requires
            old(self).wf(),
        ensures
            final(self).advanced(old(self)),
            final(self).cursor() == run_end(old(self).source(), old(self).cursor(), run),
    {
        loop
            invariant
                self.advanced(old(self)),
                run_end(self.source(), self.cursor(), run) == run_end(
                    old(self).source(),
                    old(self).cursor(),
                    run,
                ),
            ensures
                self.cursor() == run_end(old(self).source(), old(self).cursor(), run),
            decreases self.source().len() - self.cursor(),
        {
            match self.peek(0) {
                Some(c) => {
                    if in_run(run, c) {
                        self.consume(1);
                    } else {
                        break ;
                    }
                },
                None => {
                    break ;
                },
            }
        }
    }

    /// Moves the cursor behind the `*/` that closes a block comment, or to
    /// the end of the source if nothing closes it.
    fn skip_block_comment(&mut self)
        requires
            old(self).wf(),
        ensures
            final(self).advanced(old(self)),
            final(self).cursor() == block_comment_end(old(self).source(), old(self).cursor()),
    {
        loop
            invariant_except_break
                block_comment_end(self.source(), self.cursor()) == block_comment_end(
                    old(self).source(),
                    old(self).cursor(),
                ),
            invariant
                self.advanced(old(self)),
            ensures
                self.cursor() == block_comment_end(old(self).source(), old(self).cursor()),
            decreases self.source().len() - self.cursor(),
        {
            match self.peek(0) {
                Some(c) => {
                    if c == '*' && self.next_is(1, '/') {
                        self.consume(2);
                        break ;
                    } else {
                        self.consume(1);
                    }
                },
                None => {
                    break ;
                },
            }
        }
    }

    /// The characters of the source from `start` up to `end`.
    fn lexeme(&self, start: usize, end: usize) -> (text: String)
        requires
            start <= end <= self.source().len(),
        ensures
            text@ == self.source().subrange(start as int, end as int),
    {
        let mut text = String::new();
        let mut i: usize = start;
        while i < end
            invariant
                start <= i <= end <= self.src.len(),
                text@ == self.src@.subrange(start as int, i as int),
            decreases end - i,
        {
            text.push(self.src[i]);
            i = i + 1;
            assert(self.src@.subrange(start as int, i as int) =~= self.src@.subrange(
                start as int,
                i - 1,
            ).push(self.src@[i - 1]));
        }
        text
    }

    /// Whether the characters of the source from `start` up to `end` spell
    /// `word`.
    fn spells(&self, start: usize, end: usize, word: &str) -> (b: bool)
        requires
            start <= end <= self.source().len(),
        ensures
            b == (self.source().subrange(start as int, end as int) == word@),
    {
        let n: usize = word.unicode_len();
        if end - start != n {
            return false;
        }
        let mut i: usize = 0;
        while i < n
            invariant
                start <= end <= self.src.len(),
                end - start == n,
                n == word@.len(),
                i <= n,
                forall|j: int| 0 <= j < i ==> self.src@[start + j] == word@[j],
            decreases n - i,
        {
            if self.src[start + i] != word.get_char(i) {
                assert(self.src@.subrange(start as int, end as int)[i as int] != word@[i as int]);
                return false;
            }
            i = i + 1;
        }
        assert(self.src@.subrange(start as int, end as int) =~= word@);
        true
    }

    /// The keyword that the characters from `start` up to `end` spell, if
    /// any.
    fn keyword_at(&self, start: usize, end: usize) -> (found: Option<TokenType>)
        requires
            start <= end <= self.source().len(),
        ensures
            found == keyword(self.source().subrange(start as int, end as int)),
    {
        if self.spells(start, end, "char") {
            Some(TokenType::TokTypeChar)
        } else if self.spells(start, end, "string") {
            Some(TokenType::TokTypeString)
        } else if self.spells(start, end, "f32") {
            Some(TokenType::TokTypef32)
        } else if self.spells(start, end, "f64") {
            Some(TokenType::TokTypef64)
        } else if self.spells(start, end, "i64") {
            Some(TokenType::TokTypei64)
        } else if self.spells(start, end, "u64") {
            Some(TokenType::TokTypeu64)
        } else if self.spells(start, end, "i32") {
            Some(TokenType::TokTypei32)
        } else if self.spells(start, end, "u32") {
            Some(TokenType::TokTypeu32)
        } else if self.spells(start, end, "i16") {
            Some(TokenType::TokTypei16)
        } else if self.spells(start, end, "u16") {
            Some(TokenType::TokTypeu16)
        } else if self.spells(start, end, "i8") {
            Some(TokenType::TokTypei8)
        } else if self.spells(start, end, "u8") {
            Some(TokenType::TokTypeu8)
        } else if self.spells(start, end, "bool") {
            Some(TokenType::TokTypeBool)
        } else if self.spells(start, end, "struct") {
            Some(TokenType::TokStruct)
        } else if self.spells(start, end, "fun") {
            Some(TokenType::TokFun)
        } else if self.spells(start, end, "enum") {
            Some(TokenType::TokEnum)
        } else if self.spells(start, end, "const") {
            Some(TokenType::TokConst)
        } else if self.spells(start, end, "try") {
            Some(TokenType::TokTry)
        } else if self.spells(start, end, "catch") {
            Some(TokenType::TokCatch)
        } else if self.spells(start, end, "throw") {
            Some(TokenType::TokThrow)
        } else if self.spells(start, end, "return") {
            Some(TokenType::TokReturn)
        } else if self.spells(start, end, "bellyflop") {
            Some(TokenType::TokBellyflop)
        } else if self.spells(start, end, "dive") {
            Some(TokenType::TokDive)
        } else if self.spells(start, end, "from") {
            Some(TokenType::TokFrom)
        } else if self.spells(start, end, "switch") {
            Some(TokenType::TokSwitch)
        } else if self.spells(start, end, "case") {
            Some(TokenType::TokCase)
        } else if self.spells(start, end, "default") {
            Some(TokenType::TokDefault)
        } else if self.spells(start, end, "if") {
            Some(TokenType::TokIf)
        } else if self.spells(start, end, "else") {
            Some(TokenType::TokElse)
        } else if self.spells(start, end, "type") {
            Some(TokenType::TokAlias)
        } else if self.spells(start, end, "do") {
            Some(TokenType::TokDo)
        } else if self.spells(start, end, "while") {
            Some(TokenType::TokWhile)
        } else if self.spells(start, end, "break") {
            Some(TokenType::TokBreak)
        } else if self.spells(start, end, "continue") {
            Some(TokenType::TokContinue)
        } else if self.spells(start, end, "for") {
            Some(TokenType::TokFor)
        } else if self.spells(start, end, "in") {
            Some(TokenType::TokIn)
        } else if self.spells(start, end, "when") {
            Some(TokenType::TokWhen)
        } else if self.spells(start, end, "main") {
            Some(TokenType::TokMain)
        } else {
            None
        }
    }

    /// `after` and `out1` are what `before` and `out0` become when the
    /// scanner takes `step` without failing.
    spec fn took(before: &Self, after: &Self, out0: Seq<TokenView>, out1: Seq<TokenView>, step: Step) -> bool {
        &&& after.advanced(before)
        &&& step matches Step::Emit { tokens, next }
        &&& out1 =~= out0 + tokens
        &&& after.cursor() == next
    }

    /// `after`, `out1` and `result` are what `before` and `out0` become
    /// when the scanner takes `step`.
    spec fn tried(
        before: &Self,
        after: &Self,
        out0: Seq<TokenView>,
        out1: Seq<TokenView>,
        result: Result<(), LexError>,
        step: Step,
    ) -> bool {
        &&& after.advanced(before)
        &&& match step {
            Step::Emit { tokens, next } => {
                &&& result is Ok
                &&& out1 =~= out0 + tokens
                &&& after.cursor() == next
            },
            Step::Fault { error, at } => {
                &&& result matches Err(e)
                &&& e@ == error
                &&& after.cursor() == at
            },
        }
    }

    /// White space: a line feed becomes a token, anything else is skipped.
    fn scan_space(&mut self, out: &mut Vec<Token>)
        requires
            old(self).wf(),
            0 <= old(self).cursor() < old(self).source().len(),
        ensures
            Self::took(
                old(self),
                final(self),
                old(out).deep_view(),
                final(out).deep_view(),
                space_step(old(self).source(), old(self).cursor()),
            ),
    {
        if self.next_is(0, '\n') {
            emit(out, TokenType::TokNewline, None, self.line);
        }
        self.consume(1);
    }

    /// A keyword or an identifier.
    fn scan_word(&mut self, out: &mut Vec<Token>)
        requires
            old(self).wf(),
            0 <= old(self).cursor() < old(self).source().len(),
        ensures
            Self::took(
                old(self),
                final(self),
                old(out).deep_view(),
                final(out).deep_view(),
                word_step(old(self).source(), old(self).cursor()),
            ),
    {
        let start: usize = self.index;
        let line: u32 = self.line;
        self.consume(1);
        self.skip_run(Run::Word);
        proof {
            lemma_run_end(self.src@, start + 1, Run::Word);
        }
        match self.keyword_at(start, self.index) {
            Some(kind) => {
                emit(out, kind, None, line);
            },
            None => {
                let text = self.lexeme(start, self.index);
                emit(out, TokenType::TokIdentifier, Some(text), line);
            },
        }
    }

    /// A number literal, and the `..` or `...` that it may run into.
    fn scan_number(&mut self, out: &mut Vec<Token>) -> (result: Result<(), LexError>)
        requires
            old(self).wf(),
            0 <= old(self).cursor() < old(self).source().len(),
        ensures
            Self::tried(
                old(self),
                final(self),
                old(out).deep_view(),
                final(out).deep_view(),
                result,
                number_step(old(self).source(), old(self).cursor()),
            ),
    {
        let start: usize = self.index;
        let line: u32 = self.line;
        self.consume(1);
        self.skip_run(Run::Digits);
        proof {
            lemma_run_end(self.src@, start + 1, Run::Digits);
        }
        if self.next_is(0, '.') && !self.next_is(1, '.') {
            let ghost whole = self.index as int;
            self.consume(1);
            self.skip_run(Run::Digits);
            proof {
                lemma_run_end(self.src@, whole + 1, Run::Digits);
            }
            if self.next_is(0, '.') && !self.next_is(1, '.') {
                return Err(LexError::DuplicateDecimalPoint { line: self.line });
            }
        }
        let text = self.lexeme(start, self.index);
        emit(out, TokenType::TokNumLiteral, Some(text), line);
        if self.next_is(0, '.') {
            let dots_line: u32 = self.line;
            if self.next_is(2, '.') {
                self.consume(3);
                emit(out, TokenType::TokEllipsis, None, dots_line);
            } else {
                self.consume(2);
                emit(out, TokenType::TokRange, None, dots_line);
            }
        }
        Ok(())
    }

    /// A `/`: a comment, which leaves no token, or the division sign.
    fn scan_slash(&mut self, out: &mut Vec<Token>)
        requires
            old(self).wf(),
            0 <= old(self).cursor() < old(self).source().len(),
        ensures
            Self::took(
                old(self),
                final(self),
                old(out).deep_view(),
                final(out).deep_view(),
                slash_step(old(self).source(), old(self).cursor()),
            ),
    {
        if self.next_is(1, '/') {
            self.consume(2);
            self.skip_run(Run::LineRest);
            self.consume(1);
        } else if self.next_is(1, '*') {
            self.consume(2);
            self.skip_block_comment();
        } else {
            emit(out, TokenType::TokDivide, None, self.line);
            self.consume(1);
        }
    }

    /// A string literal. Nothing inside it is interpreted.
    fn scan_string(&mut self, out: &mut Vec<Token>)
        requires
            old(self).wf(),
            0 <= old(self).cursor() < old(self).source().len(),
        ensures
            Self::took(
                old(self),
                final(self),
                old(out).deep_view(),
                final(out).deep_view(),
                string_step(old(self).source(), old(self).cursor()),
            ),
    {
        let start: usize = self.index;
        let line: u32 = self.line;
        self.consume(1);
        self.skip_run(Run::StringBody);
        self.consume(1);
        let text = self.lexeme(start, self.index);
        emit(out, TokenType::TokStringLiteral, Some(text), line);
    }

    /// A macro marker: `@` and a name.
    fn scan_marker(&mut self, out: &mut Vec<Token>) -> (result: Result<(), LexError>)
        requires
            old(self).wf(),
            0 <= old(self).cursor() < old(self).source().len(),
        ensures
            Self::tried(
                old(self),
                final(self),
                old(out).deep_view(),
                final(out).deep_view(),
                result,
                marker_step(old(self).source(), old(self).cursor()),
            ),
    {
        let start: usize = self.index;
        let line: u32 = self.line;
        let named = match self.peek(1) {
            Some(c) => in_run(Run::MarkerName, c),
            None => false,
        };
        if !named {
            return Err(LexError::InvalidMacroMarker { line });
        }
        self.consume(1);
        self.skip_run(Run::MarkerName);
        proof {
            lemma_run_end(self.src@, start + 1, Run::MarkerName);
        }
        let text = self.lexeme(start, self.index);
        emit(out, TokenType::TokAt, Some(text), line);
        Ok(())
    }

    /// Punctuation or an operator; any other character is dropped.
    fn scan_symbol(&mut self, out: &mut Vec<Token>)
        requires
            old(self).wf(),
            0 <= old(self).cursor() < old(self).source().len(),
        ensures
            Self::took(
                old(self),
                final(self),
                old(out).deep_view(),
                final(out).deep_view(),
                symbol_step(old(self).source(), old(self).cursor()),
            ),
    {
        let c = self.src[self.index];
        match symbol_of(c, self.peek(1), self.peek(2)) {
            Some((kind, span)) => {
                emit(out, kind, None, self.line);
                self.consume(span);
            },
            None => {
                self.consume(1);
            },
        }
    }

    /// Tokenizes the source from the cursor to its end.
    ///
    /// The result is what [`scan`] says of the source: its tokens with the
    /// end-of-file token behind them, or the first error. The cursor ends
    /// where the scan stopped, which is the end of the source unless an
    /// error stopped it earlier.
    pub fn tokenize(&mut self) -> (result: Result<Vec<Token>, LexError>)
        requires
            old(self).wf(),
        ensures
            final(self).advanced(old(self)),
            final(self).cursor() == scan(old(self).source(), old(self).cursor()).stop,
            Self::tokenizes(old(self).source(), old(self).cursor(), result),
            result matches Ok(tokens) ==> single_eof_at_end(tokens.deep_view()),
    {
        let mut tokens: Vec<Token> = Vec::new();
        let ghost src = self.src@;
        let ghost whole = scan(src, self.index as int);
        assert(tokens.deep_view() =~= Seq::empty());
        loop
            invariant
                self.advanced(old(self)),
                src == old(self).source(),
                whole == scan(src, old(self).cursor()),
                whole.fault == scan(src, self.cursor()).fault,
                whole.stop == scan(src, self.cursor()).stop,
                whole.tokens =~= tokens.deep_view() + scan(src, self.cursor()).tokens,
            ensures
                self.cursor() == src.len(),
            decreases src.len() - self.cursor(),
        {
            let c = match self.peek(0) {
                Some(c) => c,
                None => {
                    break ;
                },
            };
            let ghost pos = self.index as int;
            proof {
                lemma_step_advances(src, pos);
            }
            if c.is_whitespace() {
                self.scan_space(&mut tokens);
            } else if c.is_alphabetic() {
                self.scan_word(&mut tokens);
            } else if c.is_numeric() {
                match self.scan_number(&mut tokens) {
                    Ok(()) => {},
                    Err(error) => {
                        return Err(error);
                    },
                }
            } else if c == '/' {
                self.scan_slash(&mut tokens);
            } else if c == '"' {
                self.scan_string(&mut tokens);
            } else if c == '@' {
                match self.scan_marker(&mut tokens) {
                    Ok(()) => {},
                    Err(error) => {
                        return Err(error);
                    },
                }
            } else {
                self.scan_symbol(&mut tokens);
            }
        }
        emit(&mut tokens, TokenType::TokEOF, None, self.line);
        proof {
            lemma_scan_ends_with_single_eof(src, old(self).cursor());
            assert(tokens.deep_view() =~= whole.tokens);
        }
        Ok(tokens)
    }
}

/// Tokenizing depends on the text alone. Two tokenizers that stand at the
/// same place of the same source, whatever their settings, return the same
/// tokens, texts and lines included, or the same error.
pub proof fn lemma_tokenize_deterministic(
    a: Tokenizer,
    b: Tokenizer,
    result_a: Result<Vec<Token>, LexError>,
    result_b: Result<Vec<Token>, LexError>,
)
    requires
        a.source() == b.source(),
        a.cursor() == b.cursor(),
        Tokenizer::tokenizes(a.source(), a.cursor(), result_a),
        Tokenizer::tokenizes(b.source(), b.cursor(), result_b),
    ensures
        match (result_a, result_b) {
            (Ok(tokens_a), Ok(tokens_b)) => tokens_a.deep_view() == tokens_b.deep_view(),
            (Err(error_a), Err(error_b)) => error_a == error_b,
            _ => false,
        },
{
}

} // verus!
