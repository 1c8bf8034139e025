//! Token kinds recognized by the normalization rules, their canonical
//! placeholders, and the shape of a single rule match.

use vstd::prelude::*;

verus! {

/// The kind tag of a rule alternative that fired.
#[derive(Clone, Copy, PartialEq, Eq, Structural, Debug)]
pub enum Kind {
    /// Hyphenated 32-digit hexadecimal identifier.
    Uuid,
    /// Bare 40-digit hexadecimal digest.
    Sha1,
    /// Bare 32-digit hexadecimal digest.
    Md5,
    /// Date or timestamp in one of the recognized formats.
    Date,
    /// `0x`-prefixed hexadecimal literal.
    HexLiteral,
    /// Path segment containing at least two consecutive decimal digits.
    IntSegment,
    /// Parameter list of a SQL `IN (...)` clause.
    SqlParams,
    /// Identifier of a SQL `SAVEPOINT` statement.
    Savepoint,
    /// Single-quoted SQL string literal.
    QuotedString,
    /// SQL numeric literal.
    Number,
    /// SQL boolean literal.
    Boolean,
    /// Hexadecimal cache-key token after a separator.
    CacheHex,
    /// Brace-delimited cache-key segment after a separator.
    CacheSegment,
    /// Chunk identifier in a resource path.
    Chunk,
    /// Hash run just before the final file extension.
    TrailingHash,
    /// Version marker such as a `v` followed by dotted digits.
    Version,
    /// Long bare hexadecimal run.
    LargeHash,
    /// Purely numeric file name before its extension.
    OnlyNumbers,
}

/// The canonical placeholder substituted for a token of the given kind.
pub open spec fn placeholder(k: Kind) -> Seq<char> {
    match k {
        Kind::Uuid => "*uuid*"@,
        Kind::Sha1 => "*sha1*"@,
        Kind::Md5 => "*md5*"@,
        Kind::Date => "*date*"@,
        Kind::HexLiteral => "*hex*"@,
        Kind::IntSegment => "*int*"@,
        Kind::SqlParams => "%s"@,
        Kind::Savepoint => "*savepoint*"@,
        Kind::QuotedString => "*str*"@,
        Kind::Number => "*num*"@,
        Kind::Boolean => "*bool*"@,
        Kind::CacheHex => "*token*"@,
        Kind::CacheSegment => "*seg*"@,
        Kind::Chunk => "*chunk*"@,
        Kind::TrailingHash => "*hash*"@,
        Kind::Version => "*ver*"@,
        Kind::LargeHash => "*longhex*"@,
        Kind::OnlyNumbers => "*digits*"@,
    }
}

/// The canonical placeholder of the given kind, as a character vector.
pub fn placeholder_chars(k: Kind) -> (r: Vec<char>)
    ensures
        r@ == placeholder(k),
{
    match k {
        Kind::Uuid => crate::text::str_chars("*uuid*"),
        Kind::Sha1 => crate::text::str_chars("*sha1*"),
        Kind::Md5 => crate::text::str_chars("*md5*"),
        Kind::Date => crate::text::str_chars("*date*"),
        Kind::HexLiteral => crate::text::str_chars("*hex*"),
        Kind::IntSegment => crate::text::str_chars("*int*"),
        Kind::SqlParams => crate::text::str_chars("%s"),
        Kind::Savepoint => crate::text::str_chars("*savepoint*"),
        Kind::QuotedString => crate::text::str_chars("*str*"),
        Kind::Number => crate::text::str_chars("*num*"),
        Kind::Boolean => crate::text::str_chars("*bool*"),
        Kind::CacheHex => crate::text::str_chars("*token*"),
        Kind::CacheSegment => crate::text::str_chars("*seg*"),
        Kind::Chunk => crate::text::str_chars("*chunk*"),
        Kind::TrailingHash => crate::text::str_chars("*hash*"),
        Kind::Version => crate::text::str_chars("*ver*"),
        Kind::LargeHash => crate::text::str_chars("*longhex*"),
        Kind::OnlyNumbers => crate::text::str_chars("*digits*"),
    }
}

/// Every placeholder is a short fixed token.
pub proof fn lemma_placeholder_len(k: Kind)
    ensures
        1 <= placeholder(k).len() <= 11,
{
    reveal_strlit("*uuid*");
    reveal_strlit("*sha1*");
    reveal_strlit("*md5*");
    reveal_strlit("*date*");
    reveal_strlit("*hex*");
    reveal_strlit("*int*");
    reveal_strlit("%s");
    reveal_strlit("*savepoint*");
    reveal_strlit("*str*");
    reveal_strlit("*num*");
    reveal_strlit("*bool*");
    reveal_strlit("*token*");
    reveal_strlit("*seg*");
    reveal_strlit("*chunk*");
    reveal_strlit("*hash*");
    reveal_strlit("*ver*");
    reveal_strlit("*longhex*");
    reveal_strlit("*digits*");
}

/// A rule match, described at the specification level: the kind of the
/// alternative that fired, the end of the span it consumed, and the
/// semantically significant inner span `[gs, ge)` that the placeholder
/// replaces. Characters of the consumed span outside the inner span are
/// anchoring context and are kept verbatim.
pub struct MatchS {
    pub kind: Kind,
    pub end: int,
    pub gs: int,
    pub ge: int,
}

/// A rule match as computed at runtime.
pub struct ExecMatch {
    pub kind: Kind,
    pub end: usize,
    pub gs: usize,
    pub ge: usize,
}

impl View for ExecMatch {
    type V = MatchS;

    open spec fn view(&self) -> MatchS {
        MatchS { kind: self.kind, end: self.end as int, gs: self.gs as int, ge: self.ge as int }
    }
}

/// A match starting at `p` is well formed: it consumes at least one character,
/// stays inside the text, and its inner span lies within the consumed span.
pub open spec fn wf_match(s: Seq<char>, p: int, m: MatchS) -> bool {
    p < m.end <= s.len() && p <= m.gs <= m.ge <= m.end
}

/// The runtime result mirrors the specification-level match exactly.
pub open spec fn match_corresponds(r: Option<ExecMatch>, m: Option<MatchS>) -> bool {
    match r {
        Some(a) => m == Some(a@),
        None => m is None,
    }
}

} // verus!
