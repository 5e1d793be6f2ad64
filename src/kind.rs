//! The kinds of the tokens and nodes of the syntax tree.

use vstd::prelude::*;

verus! {

/// The kind of a token or node of the syntax tree.
///
/// Tokens and nodes share one namespace and one order: a kind's ordinal is
/// its position in this list, and it is the raw kind that the tree library
/// stores, so the order of the variants is part of any persisted tree.
#[derive(Debug, Clone, Copy, PartialEq, Eq, Structural, PartialOrd, Ord, Hash)]
#[allow(non_camel_case_types)]
#[non_exhaustive]
pub enum Kind {
    /// Text that the lexer could not classify. It is still a token of the tree,
    /// so the tree covers all of its input.
    TOKEN_ERROR,

    /// A run of whitespace characters.
    TOKEN_WHITESPACE,

    /// A comment: `#` up to the end of the line, or, when it opens with three or
    /// more `#`, a comment over several lines that the same run of `#` may close.
    TOKEN_COMMENT,

    TOKEN_LESS_PIPE,
    TOKEN_PIPE_MORE,
    TOKEN_AT,
    TOKEN_LEFT_PARENTHESIS,
    TOKEN_RIGHT_PARENTHESIS,
    TOKEN_PLUS_PLUS,
    TOKEN_LEFT_BRACKET,
    TOKEN_RIGHT_BRACKET,
    TOKEN_EQUAL_EQUAL_MORE,
    TOKEN_LESS_EQUAL_EQUAL,
    TOKEN_SLASH_SLASH,
    TOKEN_PERIOD,
    TOKEN_LEFT_CURLYBRACE,
    TOKEN_RIGHT_CURLYBRACE,
    TOKEN_QUESTIONMARK,
    TOKEN_SEMICOLON,
    TOKEN_EXCLAMATION_EQUAL,
    TOKEN_EQUAL_EQUAL,
    TOKEN_EQUAL,
    TOKEN_LESS_EQUAL,
    TOKEN_LESS,
    TOKEN_MORE_EQUAL,
    TOKEN_MORE,
    TOKEN_MINUS_MORE,
    TOKEN_COMMA,
    TOKEN_COLON,
    TOKEN_PLUS,
    TOKEN_MINUS,
    TOKEN_ASTERISK_ASTERISK,
    TOKEN_ASTERISK,
    TOKEN_SLASH,
    TOKEN_INTEGER,
    TOKEN_FLOAT,
    TOKEN_LITERAL_IF,
    TOKEN_LITERAL_THEN,
    TOKEN_LITERAL_ELSE,
    TOKEN_LITERAL_AND,
    TOKEN_LITERAL_OR,
    TOKEN_LITERAL_NOT,
    TOKEN_INTERPOLATION_START,
    TOKEN_INTERPOLATION_END,

    /// One plain part of a path. A path opens with `./`, `..` or `/` and goes on
    /// with alphanumeric characters and `.`, `/`, `_`, `-`; a `\\` escapes any other
    /// character, `\\(` included. A path with interpolations is a `NODE_PATH` whose
    /// children alternate between these tokens and `NODE_INTERPOLATION` nodes.
    TOKEN_PATH,

    TOKEN_CONTENT,

    /// A plain identifier: its first character is not an ASCII digit, the others
    /// are alphanumeric, `_` or `-`.
    TOKEN_IDENTIFIER,

    TOKEN_IDENTIFIER_START,
    TOKEN_IDENTIFIER_END,
    TOKEN_STRING_START,
    TOKEN_STRING_END,
    TOKEN_ISLAND_START,
    TOKEN_ISLAND_END,
    NODE_ROOT,
    NODE_ERROR,
    NODE_APPLICATION,
    NODE_PREFIX_OPERATION,
    NODE_INFIX_OPERATION,
    NODE_PARENTHESIS,
    NODE_LIST,
    NODE_ATTRIBUTE_SET,
    NODE_ATTRIBUTE,
    NODE_ATTRIBUTE_PATH,
    NODE_ATTRIBUTE_INHERIT,
    NODE_ATTRIBUTE_SELECT,
    NODE_ATTRIBUTE_CHECK,
    NODE_BIND,
    NODE_LAMBDA,
    NODE_LAMBDA_PARAMETER_IDENTIFIER,
    NODE_LAMBDA_PARAMETER_PATTERN,
    NODE_LAMBDA_PARAMETER_PATTERN_ATTRIBUTE,

    /// `TOKEN_INTERPOLATION_START`, an expression, then `TOKEN_INTERPOLATION_END`.
    NODE_INTERPOLATION,

    /// A path: `TOKEN_PATH` tokens and `NODE_INTERPOLATION` nodes, with no
    /// delimiters around them.
    NODE_PATH,

    /// A stringlike delimited by backticks.
    NODE_IDENTIFIER,

    /// A stringlike delimited by one `"` or by any number of `\'`. A stringlike's
    /// direct child tokens are all `TOKEN_CONTENT`, and its direct child nodes are
    /// all `NODE_INTERPOLATION`.
    NODE_STRING,

    /// A stringlike delimited by `<` and `>`.
    NODE_ISLAND,

    /// A node around one `TOKEN_INTEGER` or `TOKEN_FLOAT`.
    NODE_NUMBER,

    NODE_IF_ELSE,
}

/// The number of kinds.
pub const KIND_COUNT: u16 = 78;

impl Kind {
    /// The kind's position in the order of the variants.
    pub open spec fn ordinal(self) -> u16 {
        match self {
            Kind::TOKEN_ERROR => 0,
            Kind::TOKEN_WHITESPACE => 1,
            Kind::TOKEN_COMMENT => 2,
            Kind::TOKEN_LESS_PIPE => 3,
            Kind::TOKEN_PIPE_MORE => 4,
            Kind::TOKEN_AT => 5,
            Kind::TOKEN_LEFT_PARENTHESIS => 6,
            Kind::TOKEN_RIGHT_PARENTHESIS => 7,
            Kind::TOKEN_PLUS_PLUS => 8,
            Kind::TOKEN_LEFT_BRACKET => 9,
            Kind::TOKEN_RIGHT_BRACKET => 10,
            Kind::TOKEN_EQUAL_EQUAL_MORE => 11,
            Kind::TOKEN_LESS_EQUAL_EQUAL => 12,
            Kind::TOKEN_SLASH_SLASH => 13,
            Kind::TOKEN_PERIOD => 14,
            Kind::TOKEN_LEFT_CURLYBRACE => 15,
            Kind::TOKEN_RIGHT_CURLYBRACE => 16,
            Kind::TOKEN_QUESTIONMARK => 17,
            Kind::TOKEN_SEMICOLON => 18,
            Kind::TOKEN_EXCLAMATION_EQUAL => 19,
            Kind::TOKEN_EQUAL_EQUAL => 20,
            Kind::TOKEN_EQUAL => 21,
            Kind::TOKEN_LESS_EQUAL => 22,
            Kind::TOKEN_LESS => 23,
            Kind::TOKEN_MORE_EQUAL => 24,
            Kind::TOKEN_MORE => 25,
            Kind::TOKEN_MINUS_MORE => 26,
            Kind::TOKEN_COMMA => 27,
            Kind::TOKEN_COLON => 28,
            Kind::TOKEN_PLUS => 29,
            Kind::TOKEN_MINUS => 30,
            Kind::TOKEN_ASTERISK_ASTERISK => 31,
            Kind::TOKEN_ASTERISK => 32,
            Kind::TOKEN_SLASH => 33,
            Kind::TOKEN_INTEGER => 34,
            Kind::TOKEN_FLOAT => 35,
            Kind::TOKEN_LITERAL_IF => 36,
            Kind::TOKEN_LITERAL_THEN => 37,
            Kind::TOKEN_LITERAL_ELSE => 38,
            Kind::TOKEN_LITERAL_AND => 39,
            Kind::TOKEN_LITERAL_OR => 40,
            Kind::TOKEN_LITERAL_NOT => 41,
            Kind::TOKEN_INTERPOLATION_START => 42,
            Kind::TOKEN_INTERPOLATION_END => 43,
            Kind::TOKEN_PATH => 44,
            Kind::TOKEN_CONTENT => 45,
            Kind::TOKEN_IDENTIFIER => 46,
            Kind::TOKEN_IDENTIFIER_START => 47,
            Kind::TOKEN_IDENTIFIER_END => 48,
            Kind::TOKEN_STRING_START => 49,
            Kind::TOKEN_STRING_END => 50,
            Kind::TOKEN_ISLAND_START => 51,
            Kind::TOKEN_ISLAND_END => 52,
            Kind::NODE_ROOT => 53,
            Kind::NODE_ERROR => 54,
            Kind::NODE_APPLICATION => 55,
            Kind::NODE_PREFIX_OPERATION => 56,
            Kind::NODE_INFIX_OPERATION => 57,
            Kind::NODE_PARENTHESIS => 58,
            Kind::NODE_LIST => 59,
            Kind::NODE_ATTRIBUTE_SET => 60,
            Kind::NODE_ATTRIBUTE => 61,
            Kind::NODE_ATTRIBUTE_PATH => 62,
            Kind::NODE_ATTRIBUTE_INHERIT => 63,
            Kind::NODE_ATTRIBUTE_SELECT => 64,
            Kind::NODE_ATTRIBUTE_CHECK => 65,
            Kind::NODE_BIND => 66,
            Kind::NODE_LAMBDA => 67,
            Kind::NODE_LAMBDA_PARAMETER_IDENTIFIER => 68,
            Kind::NODE_LAMBDA_PARAMETER_PATTERN => 69,
            Kind::NODE_LAMBDA_PARAMETER_PATTERN_ATTRIBUTE => 70,
            Kind::NODE_INTERPOLATION => 71,
            Kind::NODE_PATH => 72,
            Kind::NODE_IDENTIFIER => 73,
            Kind::NODE_STRING => 74,
            Kind::NODE_ISLAND => 75,
            Kind::NODE_NUMBER => 76,
            Kind::NODE_IF_ELSE => 77,
        }
    }

    /// The kind at position `raw`, if there is one.
    pub open spec fn of_ordinal(raw: u16) -> Option<Kind> {
        if raw == 0 {
            Some(Kind::TOKEN_ERROR)
        } else if raw == 1 {
            Some(Kind::TOKEN_WHITESPACE)
        } else if raw == 2 {
            Some(Kind::TOKEN_COMMENT)
        } else if raw == 3 {
            Some(Kind::TOKEN_LESS_PIPE)
        } else if raw == 4 {
            Some(Kind::TOKEN_PIPE_MORE)
        } else if raw == 5 {
            Some(Kind::TOKEN_AT)
        } else if raw == 6 {
            Some(Kind::TOKEN_LEFT_PARENTHESIS)
        } else if raw == 7 {
            Some(Kind::TOKEN_RIGHT_PARENTHESIS)
        } else if raw == 8 {
            Some(Kind::TOKEN_PLUS_PLUS)
        } else if raw == 9 {
            Some(Kind::TOKEN_LEFT_BRACKET)
        } else if raw == 10 {
            Some(Kind::TOKEN_RIGHT_BRACKET)
        } else if raw == 11 {
            Some(Kind::TOKEN_EQUAL_EQUAL_MORE)
        } else if raw == 12 {
            Some(Kind::TOKEN_LESS_EQUAL_EQUAL)
        } else if raw == 13 {
            Some(Kind::TOKEN_SLASH_SLASH)
        } else if raw == 14 {
            Some(Kind::TOKEN_PERIOD)
        } else if raw == 15 {
            Some(Kind::TOKEN_LEFT_CURLYBRACE)
        } else if raw == 16 {
            Some(Kind::TOKEN_RIGHT_CURLYBRACE)
        } else if raw == 17 {
            Some(Kind::TOKEN_QUESTIONMARK)
        } else if raw == 18 {
            Some(Kind::TOKEN_SEMICOLON)
        } else if raw == 19 {
            Some(Kind::TOKEN_EXCLAMATION_EQUAL)
        } else if raw == 20 {
            Some(Kind::TOKEN_EQUAL_EQUAL)
        } else if raw == 21 {
            Some(Kind::TOKEN_EQUAL)
        } else if raw == 22 {
            Some(Kind::TOKEN_LESS_EQUAL)
        } else if raw == 23 {
            Some(Kind::TOKEN_LESS)
        } else if raw == 24 {
            Some(Kind::TOKEN_MORE_EQUAL)
        } else if raw == 25 {
            Some(Kind::TOKEN_MORE)
        } else if raw == 26 {
            Some(Kind::TOKEN_MINUS_MORE)
        } else if raw == 27 {
            Some(Kind::TOKEN_COMMA)
        } else if raw == 28 {
            Some(Kind::TOKEN_COLON)
        } else if raw == 29 {
            Some(Kind::TOKEN_PLUS)
        } else if raw == 30 {
            Some(Kind::TOKEN_MINUS)
        } else if raw == 31 {
            Some(Kind::TOKEN_ASTERISK_ASTERISK)
        } else if raw == 32 {
            Some(Kind::TOKEN_ASTERISK)
        } else if raw == 33 {
            Some(Kind::TOKEN_SLASH)
        } else if raw == 34 {
            Some(Kind::TOKEN_INTEGER)
        } else if raw == 35 {
            Some(Kind::TOKEN_FLOAT)
        } else if raw == 36 {
            Some(Kind::TOKEN_LITERAL_IF)
        } else if raw == 37 {
            Some(Kind::TOKEN_LITERAL_THEN)
        } else if raw == 38 {
            Some(Kind::TOKEN_LITERAL_ELSE)
        } else if raw == 39 {
            Some(Kind::TOKEN_LITERAL_AND)
        } else if raw == 40 {
            Some(Kind::TOKEN_LITERAL_OR)
        } else if raw == 41 {
            Some(Kind::TOKEN_LITERAL_NOT)
        } else if raw == 42 {
            Some(Kind::TOKEN_INTERPOLATION_START)
        } else if raw == 43 {
            Some(Kind::TOKEN_INTERPOLATION_END)
        } else if raw == 44 {
            Some(Kind::TOKEN_PATH)
        } else if raw == 45 {
            Some(Kind::TOKEN_CONTENT)
        } else if raw == 46 {
            Some(Kind::TOKEN_IDENTIFIER)
        } else if raw == 47 {
            Some(Kind::TOKEN_IDENTIFIER_START)
        } else if raw == 48 {
            Some(Kind::TOKEN_IDENTIFIER_END)
        } else if raw == 49 {
            Some(Kind::TOKEN_STRING_START)
        } else if raw == 50 {
            Some(Kind::TOKEN_STRING_END)
        } else if raw == 51 {
            Some(Kind::TOKEN_ISLAND_START)
        } else if raw == 52 {
            Some(Kind::TOKEN_ISLAND_END)
        } else if raw == 53 {
            Some(Kind::NODE_ROOT)
        } else if raw == 54 {
            Some(Kind::NODE_ERROR)
        } else if raw == 55 {
            Some(Kind::NODE_APPLICATION)
        } else if raw == 56 {
            Some(Kind::NODE_PREFIX_OPERATION)
        } else if raw == 57 {
            Some(Kind::NODE_INFIX_OPERATION)
        } else if raw == 58 {
            Some(Kind::NODE_PARENTHESIS)
        } else if raw == 59 {
            Some(Kind::NODE_LIST)
        } else if raw == 60 {
            Some(Kind::NODE_ATTRIBUTE_SET)
        } else if raw == 61 {
            Some(Kind::NODE_ATTRIBUTE)
        } else if raw == 62 {
            Some(Kind::NODE_ATTRIBUTE_PATH)
        } else if raw == 63 {
            Some(Kind::NODE_ATTRIBUTE_INHERIT)
        } else if raw == 64 {
            Some(Kind::NODE_ATTRIBUTE_SELECT)
        } else if raw == 65 {
            Some(Kind::NODE_ATTRIBUTE_CHECK)
        } else if raw == 66 {
            Some(Kind::NODE_BIND)
        } else if raw == 67 {
            Some(Kind::NODE_LAMBDA)
        } else if raw == 68 {
            Some(Kind::NODE_LAMBDA_PARAMETER_IDENTIFIER)
        } else if raw == 69 {
            Some(Kind::NODE_LAMBDA_PARAMETER_PATTERN)
        } else if raw == 70 {
            Some(Kind::NODE_LAMBDA_PARAMETER_PATTERN_ATTRIBUTE)
        } else if raw == 71 {
            Some(Kind::NODE_INTERPOLATION)
        } else if raw == 72 {
            Some(Kind::NODE_PATH)
        } else if raw == 73 {
            Some(Kind::NODE_IDENTIFIER)
        } else if raw == 74 {
            Some(Kind::NODE_STRING)
        } else if raw == 75 {
            Some(Kind::NODE_ISLAND)
        } else if raw == 76 {
            Some(Kind::NODE_NUMBER)
        } else if raw == 77 {
            Some(Kind::NODE_IF_ELSE)
        } else {
            None
        }
    }

    /// The kinds that the tree builder needs but that diagnostics never
    /// name: they have no description.
    pub open spec fn is_internal(self) -> bool {
        matches!(
            self,
            Kind::NODE_ROOT
                | Kind::NODE_ATTRIBUTE
                | Kind::NODE_ATTRIBUTE_PATH
                | Kind::NODE_ATTRIBUTE_INHERIT
                | Kind::NODE_LAMBDA_PARAMETER_IDENTIFIER
                | Kind::NODE_LAMBDA_PARAMETER_PATTERN
                | Kind::NODE_LAMBDA_PARAMETER_PATTERN_ATTRIBUTE
                | Kind::NODE_INTERPOLATION
        )
    }

    /// The text that diagnostics use for the kind.
    pub open spec fn spec_description(self) -> Seq<char>
        recommends
            !self.is_internal(),
    {
        match self {
            Kind::TOKEN_ERROR => "an unknown token sequence"@,
            Kind::TOKEN_WHITESPACE => "whitespace"@,
            Kind::TOKEN_COMMENT => "a comment"@,
            Kind::TOKEN_LESS_PIPE => "'<|'"@,
            Kind::TOKEN_PIPE_MORE => "'|>'"@,
            Kind::TOKEN_AT => "'@'"@,
            Kind::TOKEN_LEFT_PARENTHESIS => "'('"@,
            Kind::TOKEN_RIGHT_PARENTHESIS => "')'"@,
            Kind::TOKEN_PLUS_PLUS => "'++'"@,
            Kind::TOKEN_LEFT_BRACKET => "'['"@,
            Kind::TOKEN_RIGHT_BRACKET => "']'"@,
            Kind::TOKEN_EQUAL_EQUAL_MORE => "'==>'"@,
            Kind::TOKEN_LESS_EQUAL_EQUAL => "'<=='"@,
            Kind::TOKEN_SLASH_SLASH => "'//'"@,
            Kind::TOKEN_PERIOD => "'.'"@,
            Kind::TOKEN_LEFT_CURLYBRACE => "'{'"@,
            Kind::TOKEN_RIGHT_CURLYBRACE => "'}'"@,
            Kind::TOKEN_QUESTIONMARK => "'?'"@,
            Kind::TOKEN_SEMICOLON => "';'"@,
            Kind::TOKEN_EXCLAMATION_EQUAL => "'!='"@,
            Kind::TOKEN_EQUAL_EQUAL => "'=='"@,
            Kind::TOKEN_EQUAL => "'='"@,
            Kind::TOKEN_LESS_EQUAL => "'<='"@,
            Kind::TOKEN_LESS => "'<'"@,
            Kind::TOKEN_MORE_EQUAL => "'>='"@,
            Kind::TOKEN_MORE => "'>'"@,
            Kind::TOKEN_MINUS_MORE => "'->'"@,
            Kind::TOKEN_COMMA => "','"@,
            Kind::TOKEN_COLON => "':'"@,
            Kind::TOKEN_PLUS => "'+'"@,
            Kind::TOKEN_MINUS => "'-'"@,
            Kind::TOKEN_ASTERISK_ASTERISK => "'**'"@,
            Kind::TOKEN_ASTERISK => "'*'"@,
            Kind::TOKEN_SLASH => "'/'"@,
            Kind::TOKEN_INTEGER => "an integer"@,
            Kind::TOKEN_FLOAT => "a float"@,
            Kind::TOKEN_LITERAL_IF => "the keyword 'if'"@,
            Kind::TOKEN_LITERAL_THEN => "the keyword 'then'"@,
            Kind::TOKEN_LITERAL_ELSE => "the keyword 'else'"@,
            Kind::TOKEN_LITERAL_AND => "the keyword 'and'"@,
            Kind::TOKEN_LITERAL_OR => "the keyword 'or'"@,
            Kind::TOKEN_LITERAL_NOT => "the keyword 'not'"@,
            Kind::TOKEN_INTERPOLATION_START => "'\\('"@,
            Kind::TOKEN_INTERPOLATION_END => "')'"@,
            Kind::TOKEN_PATH => "a path"@,
            Kind::TOKEN_CONTENT => "content"@,
            Kind::TOKEN_IDENTIFIER => "an identifier"@,
            Kind::TOKEN_IDENTIFIER_START => "an identifier"@,
            Kind::TOKEN_IDENTIFIER_END => "the end of an identifier"@,
            Kind::TOKEN_STRING_START => "a string"@,
            Kind::TOKEN_STRING_END => "the end of a string"@,
            Kind::TOKEN_ISLAND_START => "an island"@,
            Kind::TOKEN_ISLAND_END => "the end of an island"@,
            Kind::NODE_ERROR => "an erroneous expression"@,
            Kind::NODE_APPLICATION => "a function application"@,
            Kind::NODE_PREFIX_OPERATION => "a prefix operation"@,
            Kind::NODE_INFIX_OPERATION => "an infix operation"@,
            Kind::NODE_PARENTHESIS => "a parenthesized expression"@,
            Kind::NODE_LIST => "a list"@,
            Kind::NODE_ATTRIBUTE_SET => "an attribute set"@,
            Kind::NODE_ATTRIBUTE_SELECT => "an attribute select"@,
            Kind::NODE_ATTRIBUTE_CHECK => "an attribute check"@,
            Kind::NODE_BIND => "a bind expression"@,
            Kind::NODE_LAMBDA => "a lambda"@,
            Kind::NODE_PATH => "a path"@,
            Kind::NODE_IDENTIFIER => "an identifier"@,
            Kind::NODE_STRING => "a string"@,
            Kind::NODE_ISLAND => "an island"@,
            Kind::NODE_NUMBER => "a number"@,
            Kind::NODE_IF_ELSE => "an if else"@,
            _ => Seq::empty(),
        }
    }

    /// The tokens that can open an argument of a function application.
    pub open spec fn spec_is_argument(self) -> bool {
        matches!(
            self,
            Kind::TOKEN_ERROR
                | Kind::TOKEN_LEFT_PARENTHESIS
                | Kind::TOKEN_LEFT_BRACKET
                | Kind::TOKEN_LEFT_CURLYBRACE
                | Kind::TOKEN_INTEGER
                | Kind::TOKEN_FLOAT
                | Kind::TOKEN_PATH
                | Kind::TOKEN_IDENTIFIER
                | Kind::TOKEN_IDENTIFIER_START
                | Kind::TOKEN_STRING_START
                | Kind::TOKEN_ISLAND_START
        )
    }

    /// The tokens that carry no meaning for the grammar.
    pub open spec fn spec_is_trivia(self) -> bool {
        matches!(self, Kind::TOKEN_COMMENT | Kind::TOKEN_WHITESPACE)
    }

    /// The raw kind that the tree library stores: the kind's ordinal.
    pub fn raw(self) -> (r: u16)
        ensures
            r == self.ordinal(),
    {
        match self {
            Kind::TOKEN_ERROR => 0,
            Kind::TOKEN_WHITESPACE => 1,
            Kind::TOKEN_COMMENT => 2,
            Kind::TOKEN_LESS_PIPE => 3,
            Kind::TOKEN_PIPE_MORE => 4,
            Kind::TOKEN_AT => 5,
            Kind::TOKEN_LEFT_PARENTHESIS => 6,
            Kind::TOKEN_RIGHT_PARENTHESIS => 7,
            Kind::TOKEN_PLUS_PLUS => 8,
            Kind::TOKEN_LEFT_BRACKET => 9,
            Kind::TOKEN_RIGHT_BRACKET => 10,
            Kind::TOKEN_EQUAL_EQUAL_MORE => 11,
            Kind::TOKEN_LESS_EQUAL_EQUAL => 12,
            Kind::TOKEN_SLASH_SLASH => 13,
            Kind::TOKEN_PERIOD => 14,
            Kind::TOKEN_LEFT_CURLYBRACE => 15,
            Kind::TOKEN_RIGHT_CURLYBRACE => 16,
            Kind::TOKEN_QUESTIONMARK => 17,
            Kind::TOKEN_SEMICOLON => 18,
            Kind::TOKEN_EXCLAMATION_EQUAL => 19,
            Kind::TOKEN_EQUAL_EQUAL => 20,
            Kind::TOKEN_EQUAL => 21,
            Kind::TOKEN_LESS_EQUAL => 22,
            Kind::TOKEN_LESS => 23,
            Kind::TOKEN_MORE_EQUAL => 24,
            Kind::TOKEN_MORE => 25,
            Kind::TOKEN_MINUS_MORE => 26,
            Kind::TOKEN_COMMA => 27,
            Kind::TOKEN_COLON => 28,
            Kind::TOKEN_PLUS => 29,
            Kind::TOKEN_MINUS => 30,
            Kind::TOKEN_ASTERISK_ASTERISK => 31,
            Kind::TOKEN_ASTERISK => 32,
            Kind::TOKEN_SLASH => 33,
            Kind::TOKEN_INTEGER => 34,
            Kind::TOKEN_FLOAT => 35,
            Kind::TOKEN_LITERAL_IF => 36,
            Kind::TOKEN_LITERAL_THEN => 37,
            Kind::TOKEN_LITERAL_ELSE => 38,
            Kind::TOKEN_LITERAL_AND => 39,
            Kind::TOKEN_LITERAL_OR => 40,
            Kind::TOKEN_LITERAL_NOT => 41,
            Kind::TOKEN_INTERPOLATION_START => 42,
            Kind::TOKEN_INTERPOLATION_END => 43,
            Kind::TOKEN_PATH => 44,
            Kind::TOKEN_CONTENT => 45,
            Kind::TOKEN_IDENTIFIER => 46,
            Kind::TOKEN_IDENTIFIER_START => 47,
            Kind::TOKEN_IDENTIFIER_END => 48,
            Kind::TOKEN_STRING_START => 49,
            Kind::TOKEN_STRING_END => 50,
            Kind::TOKEN_ISLAND_START => 51,
            Kind::TOKEN_ISLAND_END => 52,
            Kind::NODE_ROOT => 53,
            Kind::NODE_ERROR => 54,
            Kind::NODE_APPLICATION => 55,
            Kind::NODE_PREFIX_OPERATION => 56,
            Kind::NODE_INFIX_OPERATION => 57,
            Kind::NODE_PARENTHESIS => 58,
            Kind::NODE_LIST => 59,
            Kind::NODE_ATTRIBUTE_SET => 60,
            Kind::NODE_ATTRIBUTE => 61,
            Kind::NODE_ATTRIBUTE_PATH => 62,
            Kind::NODE_ATTRIBUTE_INHERIT => 63,
            Kind::NODE_ATTRIBUTE_SELECT => 64,
            Kind::NODE_ATTRIBUTE_CHECK => 65,
            Kind::NODE_BIND => 66,
            Kind::NODE_LAMBDA => 67,
            Kind::NODE_LAMBDA_PARAMETER_IDENTIFIER => 68,
            Kind::NODE_LAMBDA_PARAMETER_PATTERN => 69,
            Kind::NODE_LAMBDA_PARAMETER_PATTERN_ATTRIBUTE => 70,
            Kind::NODE_INTERPOLATION => 71,
            Kind::NODE_PATH => 72,
            Kind::NODE_IDENTIFIER => 73,
            Kind::NODE_STRING => 74,
            Kind::NODE_ISLAND => 75,
            Kind::NODE_NUMBER => 76,
            Kind::NODE_IF_ELSE => 77,
        }
    }

    /// The kind whose ordinal is `raw`, or `None` past the last kind.
    pub fn from_raw(raw: u16) -> (r: Option<Kind>)
        ensures
            r == Kind::of_ordinal(raw),
            r is None <==> raw >= KIND_COUNT,
    {
        match raw {
            0 => Some(Kind::TOKEN_ERROR),
            1 => Some(Kind::TOKEN_WHITESPACE),
            2 => Some(Kind::TOKEN_COMMENT),
            3 => Some(Kind::TOKEN_LESS_PIPE),
            4 => Some(Kind::TOKEN_PIPE_MORE),
            5 => Some(Kind::TOKEN_AT),
            6 => Some(Kind::TOKEN_LEFT_PARENTHESIS),
            7 => Some(Kind::TOKEN_RIGHT_PARENTHESIS),
            8 => Some(Kind::TOKEN_PLUS_PLUS),
            9 => Some(Kind::TOKEN_LEFT_BRACKET),
            10 => Some(Kind::TOKEN_RIGHT_BRACKET),
            11 => Some(Kind::TOKEN_EQUAL_EQUAL_MORE),
            12 => Some(Kind::TOKEN_LESS_EQUAL_EQUAL),
            13 => Some(Kind::TOKEN_SLASH_SLASH),
            14 => Some(Kind::TOKEN_PERIOD),
            15 => Some(Kind::TOKEN_LEFT_CURLYBRACE),
            16 => Some(Kind::TOKEN_RIGHT_CURLYBRACE),
            17 => Some(Kind::TOKEN_QUESTIONMARK),
            18 => Some(Kind::TOKEN_SEMICOLON),
            19 => Some(Kind::TOKEN_EXCLAMATION_EQUAL),
            20 => Some(Kind::TOKEN_EQUAL_EQUAL),
            21 => Some(Kind::TOKEN_EQUAL),
            22 => Some(Kind::TOKEN_LESS_EQUAL),
            23 => Some(Kind::TOKEN_LESS),
            24 => Some(Kind::TOKEN_MORE_EQUAL),
            25 => Some(Kind::TOKEN_MORE),
            26 => Some(Kind::TOKEN_MINUS_MORE),
            27 => Some(Kind::TOKEN_COMMA),
            28 => Some(Kind::TOKEN_COLON),
            29 => Some(Kind::TOKEN_PLUS),
            30 => Some(Kind::TOKEN_MINUS),
            31 => Some(Kind::TOKEN_ASTERISK_ASTERISK),
            32 => Some(Kind::TOKEN_ASTERISK),
            33 => Some(Kind::TOKEN_SLASH),
            34 => Some(Kind::TOKEN_INTEGER),
            35 => Some(Kind::TOKEN_FLOAT),
            36 => Some(Kind::TOKEN_LITERAL_IF),
            37 => Some(Kind::TOKEN_LITERAL_THEN),
            38 => Some(Kind::TOKEN_LITERAL_ELSE),
            39 => Some(Kind::TOKEN_LITERAL_AND),
            40 => Some(Kind::TOKEN_LITERAL_OR),
            41 => Some(Kind::TOKEN_LITERAL_NOT),
            42 => Some(Kind::TOKEN_INTERPOLATION_START),
            43 => Some(Kind::TOKEN_INTERPOLATION_END),
            44 => Some(Kind::TOKEN_PATH),
            45 => Some(Kind::TOKEN_CONTENT),
            46 => Some(Kind::TOKEN_IDENTIFIER),
            47 => Some(Kind::TOKEN_IDENTIFIER_START),
            48 => Some(Kind::TOKEN_IDENTIFIER_END),
            49 => Some(Kind::TOKEN_STRING_START),
            50 => Some(Kind::TOKEN_STRING_END),
            51 => Some(Kind::TOKEN_ISLAND_START),
            52 => Some(Kind::TOKEN_ISLAND_END),
            53 => Some(Kind::NODE_ROOT),
            54 => Some(Kind::NODE_ERROR),
            55 => Some(Kind::NODE_APPLICATION),
            56 => Some(Kind::NODE_PREFIX_OPERATION),
            57 => Some(Kind::NODE_INFIX_OPERATION),
            58 => Some(Kind::NODE_PARENTHESIS),
            59 => Some(Kind::NODE_LIST),
            60 => Some(Kind::NODE_ATTRIBUTE_SET),
            61 => Some(Kind::NODE_ATTRIBUTE),
            62 => Some(Kind::NODE_ATTRIBUTE_PATH),
            63 => Some(Kind::NODE_ATTRIBUTE_INHERIT),
            64 => Some(Kind::NODE_ATTRIBUTE_SELECT),
            65 => Some(Kind::NODE_ATTRIBUTE_CHECK),
            66 => Some(Kind::NODE_BIND),
            67 => Some(Kind::NODE_LAMBDA),
            68 => Some(Kind::NODE_LAMBDA_PARAMETER_IDENTIFIER),
            69 => Some(Kind::NODE_LAMBDA_PARAMETER_PATTERN),
            70 => Some(Kind::NODE_LAMBDA_PARAMETER_PATTERN_ATTRIBUTE),
            71 => Some(Kind::NODE_INTERPOLATION),
            72 => Some(Kind::NODE_PATH),
            73 => Some(Kind::NODE_IDENTIFIER),
            74 => Some(Kind::NODE_STRING),
            75 => Some(Kind::NODE_ISLAND),
            76 => Some(Kind::NODE_NUMBER),
            77 => Some(Kind::NODE_IF_ELSE),
            _ => None,
        }
    }

    /// Whether a token of this kind can open an argument of a function
    /// application, which is written by juxtaposition: `f x y`.
    pub fn is_argument(self) -> (r: bool)
        ensures
            r == self.spec_is_argument(),
    {
        matches!(
            self,
            Kind::TOKEN_ERROR
                | Kind::TOKEN_LEFT_PARENTHESIS
                | Kind::TOKEN_LEFT_BRACKET
                | Kind::TOKEN_LEFT_CURLYBRACE
                | Kind::TOKEN_INTEGER
                | Kind::TOKEN_FLOAT
                | Kind::TOKEN_PATH
                | Kind::TOKEN_IDENTIFIER
                | Kind::TOKEN_IDENTIFIER_START
                | Kind::TOKEN_STRING_START
                | Kind::TOKEN_ISLAND_START
        )
    }

    /// Whether the parser skips tokens of this kind.
    pub fn is_trivia(self) -> (r: bool)
        ensures
            r == self.spec_is_trivia(),
    {
        matches!(self, Kind::TOKEN_COMMENT | Kind::TOKEN_WHITESPACE)
    }

    /// How diagnostics name the kind, as in "expected a string".
    pub fn description(self) -> (r: &'static str)
        requires
            !self.is_internal(),
        ensures
            r@ == self.spec_description(),
    {
        match self {
            Kind::TOKEN_ERROR => "an unknown token sequence",
            Kind::TOKEN_WHITESPACE => "whitespace",
            Kind::TOKEN_COMMENT => "a comment",
            Kind::TOKEN_LESS_PIPE => "'<|'",
            Kind::TOKEN_PIPE_MORE => "'|>'",
            Kind::TOKEN_AT => "'@'",
            Kind::TOKEN_LEFT_PARENTHESIS => "'('",
            Kind::TOKEN_RIGHT_PARENTHESIS => "')'",
            Kind::TOKEN_PLUS_PLUS => "'++'",
            Kind::TOKEN_LEFT_BRACKET => "'['",
            Kind::TOKEN_RIGHT_BRACKET => "']'",
            Kind::TOKEN_EQUAL_EQUAL_MORE => "'==>'",
            Kind::TOKEN_LESS_EQUAL_EQUAL => "'<=='",
            Kind::TOKEN_SLASH_SLASH => "'//'",
            Kind::TOKEN_PERIOD => "'.'",
            Kind::TOKEN_LEFT_CURLYBRACE => "'{'",
            Kind::TOKEN_RIGHT_CURLYBRACE => "'}'",
            Kind::TOKEN_QUESTIONMARK => "'?'",
            Kind::TOKEN_SEMICOLON => "';'",
            Kind::TOKEN_EXCLAMATION_EQUAL => "'!='",
            Kind::TOKEN_EQUAL_EQUAL => "'=='",
            Kind::TOKEN_EQUAL => "'='",
            Kind::TOKEN_LESS_EQUAL => "'<='",
            Kind::TOKEN_LESS => "'<'",
            Kind::TOKEN_MORE_EQUAL => "'>='",
            Kind::TOKEN_MORE => "'>'",
            Kind::TOKEN_MINUS_MORE => "'->'",
            Kind::TOKEN_COMMA => "','",
            Kind::TOKEN_COLON => "':'",
            Kind::TOKEN_PLUS => "'+'",
            Kind::TOKEN_MINUS => "'-'",
            Kind::TOKEN_ASTERISK_ASTERISK => "'**'",
            Kind::TOKEN_ASTERISK => "'*'",
            Kind::TOKEN_SLASH => "'/'",
            Kind::TOKEN_INTEGER => "an integer",
            Kind::TOKEN_FLOAT => "a float",
            Kind::TOKEN_LITERAL_IF => "the keyword 'if'",
            Kind::TOKEN_LITERAL_THEN => "the keyword 'then'",
            Kind::TOKEN_LITERAL_ELSE => "the keyword 'else'",
            Kind::TOKEN_LITERAL_AND => "the keyword 'and'",
            Kind::TOKEN_LITERAL_OR => "the keyword 'or'",
            Kind::TOKEN_LITERAL_NOT => "the keyword 'not'",
            Kind::TOKEN_INTERPOLATION_START => "'\\('",
            Kind::TOKEN_INTERPOLATION_END => "')'",
            Kind::TOKEN_PATH => "a path",
            Kind::TOKEN_CONTENT => "content",
            Kind::TOKEN_IDENTIFIER => "an identifier",
            Kind::TOKEN_IDENTIFIER_START => "an identifier",
            Kind::TOKEN_IDENTIFIER_END => "the end of an identifier",
            Kind::TOKEN_STRING_START => "a string",
            Kind::TOKEN_STRING_END => "the end of a string",
            Kind::TOKEN_ISLAND_START => "an island",
            Kind::TOKEN_ISLAND_END => "the end of an island",
            Kind::NODE_ERROR => "an erroneous expression",
            Kind::NODE_APPLICATION => "a function application",
            Kind::NODE_PREFIX_OPERATION => "a prefix operation",
            Kind::NODE_INFIX_OPERATION => "an infix operation",
            Kind::NODE_PARENTHESIS => "a parenthesized expression",
            Kind::NODE_LIST => "a list",
            Kind::NODE_ATTRIBUTE_SET => "an attribute set",
            Kind::NODE_ATTRIBUTE_SELECT => "an attribute select",
            Kind::NODE_ATTRIBUTE_CHECK => "an attribute check",
            Kind::NODE_BIND => "a bind expression",
            Kind::NODE_LAMBDA => "a lambda",
            Kind::NODE_PATH => "a path",
            Kind::NODE_IDENTIFIER => "an identifier",
            Kind::NODE_STRING => "a string",
            Kind::NODE_ISLAND => "an island",
            Kind::NODE_NUMBER => "a number",
            Kind::NODE_IF_ELSE => "an if else",
            _ => "",
        }
    }
}

/// Every kind goes to its ordinal and back to itself, and every ordinal that
/// names a kind is that kind's ordinal.
pub proof fn lemma_ordinal_round_trip(k: Kind, raw: u16)
    ensures
        k.ordinal() < KIND_COUNT,
        Kind::of_ordinal(k.ordinal()) == Some(k),
        Kind::of_ordinal(raw) matches Some(j) ==> j.ordinal() == raw,
{
}

/// No kind is both an argument opener and trivia.
pub proof fn lemma_argument_trivia_disjoint(k: Kind)
    ensures
        !(k.spec_is_argument() && k.spec_is_trivia()),
{
}

#[verifier::external_type_specification]
pub struct ExSyntaxKind(rowan::SyntaxKind);

impl From<Kind> for rowan::SyntaxKind {
    fn from(kind: Kind) -> (r: rowan::SyntaxKind) {
        rowan::SyntaxKind(kind.raw())
    }
}

impl vstd::std_specs::convert::FromSpecImpl<Kind> for rowan::SyntaxKind {
    open spec fn obeys_from_spec() -> bool {
        true
    }

    open spec fn from_spec(kind: Kind) -> rowan::SyntaxKind {
        rowan::SyntaxKind(kind.ordinal())
    }
}

} // verus!
