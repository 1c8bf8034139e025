//! Character classes used by the normalization rules.

use vstd::prelude::*;

verus! {

/// Decimal digit.
pub open spec fn is_digit(c: char) -> bool {
    '0' <= c && c <= '9'
}

/// Hexadecimal digit, either case.
pub open spec fn is_hex(c: char) -> bool {
    is_digit(c) || ('a' <= c && c <= 'f') || ('A' <= c && c <= 'F')
}

/// ASCII letter, either case.
pub open spec fn is_alpha(c: char) -> bool {
    ('a' <= c && c <= 'z') || ('A' <= c && c <= 'Z')
}

/// Word character in the sense of a word boundary: letter, digit or underscore.
pub open spec fn is_word(c: char) -> bool {
    is_alpha(c) || is_digit(c) || c == '_'
}

/// Letter or digit; the characters allowed in a file extension.
pub open spec fn is_alnum(c: char) -> bool {
    is_alpha(c) || is_digit(c)
}

/// ASCII whitespace.
pub open spec fn is_space(c: char) -> bool {
    c == ' ' || c == '\t' || c == '\n' || c == '\r' || c == '\u{b}' || c == '\u{c}'
}

/// Unicode whitespace: the characters that trimming a string removes.
pub open spec fn is_unicode_space(c: char) -> bool {
    is_space(c) || c == '\u{85}' || c == '\u{a0}' || c == '\u{1680}' || ('\u{2000}' <= c && c
        <= '\u{200a}') || c == '\u{2028}' || c == '\u{2029}' || c == '\u{202f}' || c == '\u{205f}'
        || c == '\u{3000}'
}

/// Path separator inside a transaction name: forward or back slash.
pub open spec fn is_path_sep(c: char) -> bool {
    c == '/' || c == '\\'
}

/// Separator that may precede a scrubbable cache-key token.
pub open spec fn is_cache_sep(c: char) -> bool {
    is_space(c) || c == '.' || c == '+' || c == ':' || c == '/' || c == '-'
}

/// Character classes a scan can run over.
#[derive(Clone, Copy, PartialEq, Eq, Structural)]
pub enum CharClass {
    Digit,
    Hex,
    Alnum,
    Space,
    UnicodeSpace,
    Word,
    CacheSep,
    NotPathSep,
    NotCloseBrace,
    NotNewline,
    NotComma,
    NotDoubleQuote,
    NotSingleQuote,
    NotBacktick,
}

/// Membership of a character in a scan class.
pub open spec fn in_class(cls: CharClass, c: char) -> bool {
    match cls {
        CharClass::Digit => is_digit(c),
        CharClass::Hex => is_hex(c),
        CharClass::Alnum => is_alnum(c),
        CharClass::Space => is_space(c),
        CharClass::UnicodeSpace => is_unicode_space(c),
        CharClass::Word => is_word(c),
        CharClass::CacheSep => is_cache_sep(c),
        CharClass::NotPathSep => !is_path_sep(c),
        CharClass::NotCloseBrace => c != '}',
        CharClass::NotNewline => c != '\n',
        CharClass::NotComma => c != ',',
        CharClass::NotDoubleQuote => c != '"',
        CharClass::NotSingleQuote => c != '\'',
        CharClass::NotBacktick => c != '`',
    }
}

/// Runtime test for membership in a scan class.
pub fn class_test(cls: CharClass, c: char) -> (r: bool)
    ensures
        r == in_class(cls, c),
{
    match cls {
        CharClass::Digit => '0' <= c && c <= '9',
        CharClass::Hex => ('0' <= c && c <= '9') || ('a' <= c && c <= 'f') || ('A' <= c && c
            <= 'F'),
        CharClass::Alnum => ('a' <= c && c <= 'z') || ('A' <= c && c <= 'Z') || ('0' <= c && c
            <= '9'),
        CharClass::Space => c == ' ' || c == '\t' || c == '\n' || c == '\r' || c == '\u{b}' || c
            == '\u{c}',
        CharClass::UnicodeSpace => c == ' ' || c == '\t' || c == '\n' || c == '\r' || c == '\u{b}'
            || c == '\u{c}' || c == '\u{85}' || c == '\u{a0}' || c == '\u{1680}' || ('\u{2000}'
            <= c && c <= '\u{200a}') || c == '\u{2028}' || c == '\u{2029}' || c == '\u{202f}' || c
            == '\u{205f}' || c == '\u{3000}',
        CharClass::Word => ('a' <= c && c <= 'z') || ('A' <= c && c <= 'Z') || ('0' <= c && c
            <= '9') || c == '_',
        CharClass::CacheSep => c == ' ' || c == '\t' || c == '\n' || c == '\r' || c == '\u{b}' || c
            == '\u{c}' || c == '.' || c == '+' || c == ':' || c == '/' || c == '-',
        CharClass::NotPathSep => !(c == '/' || c == '\\'),
        CharClass::NotCloseBrace => c != '}',
        CharClass::NotNewline => c != '\n',
        CharClass::NotComma => c != ',',
        CharClass::NotDoubleQuote => c != '"',
        CharClass::NotSingleQuote => c != '\'',
        CharClass::NotBacktick => c != '`',
    }
}

} // verus!
