//! Tokens: what the scanner hands to a parser.

use vstd::prelude::*;
use vstd::string::StringExecFns;
use crate::decimal::{decimal, push_decimal};

verus! {

/// The category of a token.
#[derive(Debug, Clone, Copy, PartialEq, Eq, Hash, Structural)]
pub enum TokenType {
    // Primitive type keywords
    /// `char`
    TokTypeChar,
    /// `string`
    TokTypeString,
    /// `i64`
    TokTypei64,
    /// `u64`
    TokTypeu64,
    /// `i32`
    TokTypei32,
    /// `u32`
    TokTypeu32,
    /// `i16`
    TokTypei16,
    /// `u16`
    TokTypeu16,
    /// `i8`
    TokTypei8,
    /// `u8`
    TokTypeu8,
    /// `bool`
    TokTypeBool,
    /// `f32`
    TokTypef32,
    /// `f64`
    TokTypef64,
    // Literals and names
    /// A string literal, quotes included: `"Hello, world!"`
    TokStringLiteral,
    /// A number literal: `1` or `1.5`
    TokNumLiteral,
    /// A character literal: `'a'` (reserved; the scanner does not produce it)
    TokCharLiteral,
    /// The name of a variable, function or type
    TokIdentifier,
    // Punctuation
    /// `=`
    TokAssign,
    /// `(`
    TokLeftParen,
    /// `)`
    TokRightParen,
    /// `{`
    TokLeftBrace,
    /// `}`
    TokRightBrace,
    /// `[`
    TokLeftBracket,
    /// `]`
    TokRightBracket,
    /// The program entry `main`
    TokMain,
    /// `;`
    TokSemi,
    /// `.`
    TokDot,
    /// `,`
    TokComma,
    // Structural keywords
    /// `if`
    TokIf,
    /// `else`
    TokElse,
    /// `do`
    TokDo,
    /// `when`, as in `x = y when z == true`
    TokWhen,
    /// `while`
    TokWhile,
    /// `for`
    TokFor,
    /// `in`
    TokIn,
    /// `return`
    TokReturn,
    /// `break`
    TokBreak,
    /// `continue`
    TokContinue,
    /// `try`
    TokTry,
    /// `catch`
    TokCatch,
    /// `throw`
    TokThrow,
    /// `fun`
    TokFun,
    /// `struct`
    TokStruct,
    /// `enum`
    TokEnum,
    /// `const`
    TokConst,
    /// `#`
    TokPound,
    /// `dive`, which imports a module
    TokDive,
    /// `bellyflop`, which imports a C header
    TokBellyflop,
    /// `from`
    TokFrom,
    /// `type`, which introduces an alias
    TokAlias,
    /// A macro invocation marker: `@name`
    TokAt,
    // Operators
    /// `&`
    TokAmpersand,
    /// `*`
    TokAsterisk,
    /// `->`
    TokArrow,
    /// `:`
    TokColon,
    /// `::`
    TokDoubleColon,
    /// `%`
    TokModulo,
    /// `+`
    TokPlus,
    /// `-`
    TokMinus,
    /// `++`
    TokIncrement,
    /// `--`
    TokDecrement,
    /// `==`
    TokEquals,
    /// `*=`
    TokTimesEqual,
    /// `/=` (reserved; the scanner does not produce it)
    TokDivideEqual,
    /// `+=`
    TokPlusEqual,
    /// `-=`
    TokMinusEqual,
    /// `%=`
    TokModuloEqual,
    /// `!=`
    TokNotEquals,
    /// `&=`
    TokBitAndEqual,
    /// `|=`
    TokBitOrEqual,
    /// `^=`
    TokBitXorEqual,
    /// `~=`
    TokBitNotEqual,
    /// `<<=` (reserved; the scanner does not produce it)
    TokLeftShiftEqual,
    /// `>>=` (reserved; the scanner does not produce it)
    TokRightShiftEqual,
    /// `<`
    TokLeftAngle,
    /// `>`
    TokRightAngle,
    /// `<=`
    TokLessEqual,
    /// `>=`
    TokGreaterEqual,
    /// `|`
    TokBitOr,
    /// `^`
    TokBitXor,
    /// `~`
    TokBitNot,
    /// `<<`
    TokLeftShift,
    /// `>>`
    TokRightShift,
    /// `...`
    TokEllipsis,
    /// `?`
    TokQuestion,
    /// `$`
    TokDollar,
    /// `..`
    TokRange,
    /// `/`
    TokDivide,
    // Logical operators
    /// `&&`
    TokAnd,
    /// `||`
    TokOr,
    /// `!`
    TokBang,
    // Control flow
    /// `switch`
    TokSwitch,
    /// `case`
    TokCase,
    /// `default`
    TokDefault,
    // Miscellaneous
    /// The end of the source; always the last token, and only the last
    TokEOF,
    /// A line break outside comments and strings
    TokNewline,
}

/// One token of the source.
#[derive(Debug, PartialEq, Eq)]
pub struct Token {
    /// The category.
    pub tok_type: TokenType,
    /// The lexeme, for the categories whose spelling is not fixed:
    /// identifiers, number and string literals, macro markers.
    pub value: Option<String>,
    /// The line, counted from 1, that holds the token's first character.
    pub line: u32,
}

/// The mathematical value of a [`Token`].
pub struct TokenView {
    pub tok_type: TokenType,
    pub value: Option<Seq<char>>,
    pub line: nat,
}

impl View for Token {
    type V = TokenView;

    open spec fn view(&self) -> TokenView {
        TokenView {
            tok_type: self.tok_type,
            value: match self.value {
                Some(s) => Some(s@),
                None => None,
            },
            line: self.line as nat,
        }
    }
}

impl DeepView for Token {
    type V = TokenView;

    open spec fn deep_view(&self) -> TokenView {
        self@
    }
}

/// Why a source could not be tokenized.
#[derive(Debug, Clone, Copy, PartialEq, Eq, Structural)]
pub enum LexError {
    /// A number literal holds a second decimal point, on the given line.
    DuplicateDecimalPoint { line: u32 },
    /// An `@` with no name after it, on the given line.
    InvalidMacroMarker { line: u32 },
}

/// The mathematical value of a [`LexError`].
pub enum LexErrorView {
    DuplicateDecimalPoint { line: nat },
    InvalidMacroMarker { line: nat },
}

impl View for LexError {
    type V = LexErrorView;

    open spec fn view(&self) -> LexErrorView {
        match *self {
            LexError::DuplicateDecimalPoint { line } => LexErrorView::DuplicateDecimalPoint {
                line: line as nat,
            },
            LexError::InvalidMacroMarker { line } => LexErrorView::InvalidMacroMarker {
                line: line as nat,
            },
        }
    }
}

impl LexErrorView {
    /// The line on which the error was found.
    pub open spec fn line(self) -> nat {
        match self {
            LexErrorView::DuplicateDecimalPoint { line } => line,
            LexErrorView::InvalidMacroMarker { line } => line,
        }
    }

    /// The error in words.
    pub open spec fn message(self) -> Seq<char> {
        match self {
            LexErrorView::DuplicateDecimalPoint { line } => "[Line "@ + decimal(line)
                + "] Cannot put two decimal points in a float literal"@,
            LexErrorView::InvalidMacroMarker { line } => "invalid `@` usage at line "@ + decimal(
                line,
            ),
        }
    }
}

impl LexError {
    /// The error in words, for the user.
    pub fn message(&self) -> (text: String)
        ensures
            text@ == self@.message(),
    {
        match *self {
            LexError::DuplicateDecimalPoint { line } => {
                let mut text = "[Line ".to_owned();
                push_decimal(&mut text, line as u64);
                text.append("] Cannot put two decimal points in a float literal");
                text
            },
            LexError::InvalidMacroMarker { line } => {
                let mut text = "invalid `@` usage at line ".to_owned();
                push_decimal(&mut text, line as u64);
                text
            },
        }
    }

    /// The line on which the error was found.
    pub fn line(&self) -> (line: u32)
        ensures
            line == self@.line(),
    {
        match *self {
            LexError::DuplicateDecimalPoint { line } => line,
            LexError::InvalidMacroMarker { line } => line,
        }
    }
}

} // verus!
