//! The substitution engine: scans the input left to right, applies the
//! domain's ordered rule alternatives at each position, and replaces the
//! significant span of every match with the canonical placeholder of its kind.

use vstd::prelude::*;
use crate::cache::{cache_match_at, cache_match};
use crate::chars::is_cache_sep;
use crate::resource::{res_match_at, res_match};
use crate::sql::{sql_match_at, sql_match};
use crate::txn::{tx_match_at, tx_match};
use crate::text::{str_chars, chars_string};
use crate::token::{Kind, MatchS, ExecMatch, placeholder, lemma_placeholder_len, wf_match,
    match_corresponds};

verus! {

/// The input domain whose rule set `normalize` applies.
#[derive(Clone, Copy, PartialEq, Eq, Structural, Debug)]
pub enum Domain {
    /// Segments of a transaction name or path.
    TransactionSegment,
    /// Tokens of a SQL statement.
    SqlToken,
    /// Tokens of a cache key.
    CacheToken,
    /// Tokens of a resource path.
    ResourceToken,
}

/// The domain's ordered rule set, evaluated at position `p`.
pub open spec fn match_at(d: Domain, s: Seq<char>, p: int) -> Option<MatchS>
    recommends 0 <= p < s.len(),
{
    match d {
        Domain::TransactionSegment => tx_match_at(s, p),
        Domain::SqlToken => sql_match_at(s, p),
        Domain::CacheToken => cache_match_at(s, p),
        Domain::ResourceToken => res_match_at(s, p),
    }
}

/// `match_at`, computed at runtime.
pub fn match_at_exec(d: Domain, s: &Vec<char>, p: usize) -> (r: Option<ExecMatch>)
    requires
        p < s@.len(),
    ensures
        match_corresponds(r, match_at(d, s@, p as int)),
        r is Some ==> wf_match(s@, p as int, r->Some_0@),
{
    match d {
        Domain::TransactionSegment => tx_match(s, p),
        Domain::SqlToken => sql_match(s, p),
        Domain::CacheToken => cache_match(s, p),
        Domain::ResourceToken => res_match(s, p),
    }
}

/// The normalized form of the text from position `p` on: at a match, the text
/// before the significant span and the anchoring context after it are kept,
/// the significant span becomes the placeholder of the matched kind, and
/// scanning resumes after the consumed span; at a position with no match, the
/// character is kept and scanning advances by one.
pub open spec fn normalize_from(d: Domain, s: Seq<char>, p: int) -> Seq<char>
    decreases s.len() - p when 0 <= p
{
    if p >= s.len() {
        Seq::empty()
    } else {
        match match_at(d, s, p) {
            Some(m) => if wf_match(s, p, m) {
                s.subrange(p, m.gs) + placeholder(m.kind) + s.subrange(m.ge, m.end)
                    + normalize_from(d, s, m.end)
            } else {
                seq![s[p]] + normalize_from(d, s, p + 1)
            },
            None => seq![s[p]] + normalize_from(d, s, p + 1),
        }
    }
}

/// The normalized form of a whole text.
pub open spec fn normalize_spec(d: Domain, s: Seq<char>) -> Seq<char> {
    normalize_from(d, s, 0)
}

/// Applies the domain's rule set to the input and returns the text with every
/// matched token replaced by its canonical placeholder. Total: an input with
/// no matches comes back unchanged, and the output is at most twelve times as
/// long as the input.
#[verifier::rlimit(100)]
pub fn normalize(d: Domain, input: &str) -> (out: String)
    ensures
        out@ == normalize_spec(d, input@),
        out@.len() <= 12 * input@.len(),
{
    let s = str_chars(input);
    let mut out: Vec<char> = Vec::new();
    let mut p: usize = 0;
    while p < s.len()
        invariant
            p <= s@.len(),
            s@ == input@,
            normalize_spec(d, s@) == out@ + normalize_from(d, s@, p as int),
            out@.len() <= 12 * p,
        decreases s@.len() - p,
    {
        let ghost out0 = out@;
        match match_at_exec(d, &s, p) {
            Some(m) => {
                proof {
                    lemma_placeholder_len(m@.kind);
                }
                let mut i = p;
                while i < m.gs
                    invariant
                        p <= i <= m.gs <= s@.len(),
                        out@ == out0 + s@.subrange(p as int, i as int),
                    decreases m.gs - i,
                {
                    out.push(s[i]);
                    assert(out@ =~= out0 + s@.subrange(p as int, i + 1 as int));
                    i = i + 1;
                }
                let ghost out1 = out@;
                let mut ph = crate::token::placeholder_chars(m.kind);
                out.append(&mut ph);
                let ghost out2 = out@;
                let mut j = m.ge;
                while j < m.end
                    invariant
                        m.ge <= j <= m.end <= s@.len(),
                        out@ == out2 + s@.subrange(m.ge as int, j as int),
                    decreases m.end - j,
                {
                    out.push(s[j]);
                    assert(out@ =~= out2 + s@.subrange(m.ge as int, j + 1 as int));
                    j = j + 1;
                }
                assert(out@ =~= out0 + (s@.subrange(p as int, m.gs as int) + placeholder(m@.kind)
                    + s@.subrange(m.ge as int, m.end as int)));
                assert(normalize_from(d, s@, p as int) == s@.subrange(p as int, m.gs as int)
                    + placeholder(m@.kind) + s@.subrange(m.ge as int, m.end as int)
                    + normalize_from(d, s@, m.end as int));
                assert(out@ + normalize_from(d, s@, m.end as int) =~= out0 + normalize_from(
                    d, s@, p as int));
                assert(out@.len() <= out0.len() + (m.end - p) + 11);
                p = m.end;
            }
            None => {
                out.push(s[p]);
                assert(out@ + normalize_from(d, s@, p + 1 as int) =~= out0 + normalize_from(
                    d, s@, p as int));
                p = p + 1;
            }
        }
    }
    assert(normalize_from(d, s@, p as int) =~= Seq::<char>::empty());
    assert(out@ =~= normalize_spec(d, s@));
    chars_string(&out)
}

/// Normalization of clean text is the identity: if no rule of the domain
/// matches at any position from `p` on, the text from `p` on is kept verbatim.
pub proof fn lemma_clean_suffix_unchanged(d: Domain, s: Seq<char>, p: int)
    requires
        0 <= p <= s.len(),
        forall|q: int| p <= q < s.len() ==> match_at(d, s, q) is None,
    ensures
        normalize_from(d, s, p) == s.subrange(p, s.len() as int),
    decreases s.len() - p,
{
    if p >= s.len() {
        assert(normalize_from(d, s, p) =~= s.subrange(p, s.len() as int));
    } else {
        lemma_clean_suffix_unchanged(d, s, p + 1);
        assert(normalize_from(d, s, p) =~= s.subrange(p, s.len() as int));
    }
}

/// A text on which no rule of the domain matches anywhere is a fixed point of
/// normalization.
pub proof fn lemma_clean_input_unchanged(d: Domain, s: Seq<char>)
    requires
        forall|q: int| 0 <= q < s.len() ==> match_at(d, s, q) is None,
    ensures
        normalize_spec(d, s) == s,
{
    lemma_clean_suffix_unchanged(d, s, 0);
    assert(s.subrange(0, s.len() as int) =~= s);
}

/// The first segment of a cache key is never scrubbed: every character before
/// the first separator is kept verbatim at the front of the output, however
/// that prefix looks.
pub proof fn lemma_cache_first_segment_kept(s: Seq<char>, k: int)
    requires
        0 <= k <= s.len(),
        forall|q: int| 0 <= q < k ==> !is_cache_sep(s[q]),
    ensures
        normalize_spec(Domain::CacheToken, s) == s.subrange(0, k) + normalize_from(
            Domain::CacheToken, s, k),
{
    lemma_cache_prefix(s, 0, k);
    assert(s.subrange(0, 0) =~= Seq::<char>::empty());
    assert(Seq::<char>::empty() + normalize_from(Domain::CacheToken, s, 0) =~= normalize_from(
        Domain::CacheToken, s, 0));
}

proof fn lemma_cache_prefix(s: Seq<char>, p: int, k: int)
    requires
        0 <= p <= k <= s.len(),
        forall|q: int| p <= q < k ==> !is_cache_sep(s[q]),
    ensures
        normalize_from(Domain::CacheToken, s, p) == s.subrange(p, k) + normalize_from(
            Domain::CacheToken, s, k),
    decreases k - p,
{
    if p == k {
        assert(s.subrange(p, k) =~= Seq::<char>::empty());
        assert(s.subrange(p, k) + normalize_from(Domain::CacheToken, s, k) =~= normalize_from(
            Domain::CacheToken, s, k));
    } else {
        assert(match_at(Domain::CacheToken, s, p) is None);
        lemma_cache_prefix(s, p + 1, k);
        assert(seq![s[p]] + (s.subrange(p + 1, k) + normalize_from(Domain::CacheToken, s, k))
            =~= s.subrange(p, k) + normalize_from(Domain::CacheToken, s, k));
    }
}

} // verus!
