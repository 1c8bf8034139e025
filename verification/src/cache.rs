//! Cache-key normalization rule: hexadecimal tokens and brace-delimited
//! segments are scrubbed, but only when preceded by a separator, so the first
//! path segment of a cache key is never touched.

use vstd::prelude::*;
use crate::chars::{CharClass, is_cache_sep};
use crate::scan::{run_end, lemma_run_end, boundary_after, char_at, class_run_end, check_char,
    check_boundary_after, check_between};
use crate::token::{Kind, MatchS, ExecMatch, match_corresponds, wf_match};

verus! {

/// End of one complete brace-delimited segment `{...}` starting at `q`, if any.
pub open spec fn brace_one(s: Seq<char>, q: int) -> Option<int> {
    if char_at(s, q, '{') {
        let r = run_end(s, q + 1, CharClass::NotCloseBrace);
        if r < s.len() && s[r] == '}' {
            Some(r + 1)
        } else {
            None
        }
    } else {
        None
    }
}

/// End of the last segment of a maximal chain of adjacent `{...}` segments.
pub open spec fn brace_chain_end(s: Seq<char>, q: int) -> int
    decreases s.len() - q when 0 <= q <= s.len()
{
    match brace_one(s, q) {
        Some(e) => if q < e <= s.len() && brace_one(s, e) is Some {
            brace_chain_end(s, e)
        } else {
            e
        },
        None => q,
    }
}

/// Start of the last segment of a maximal chain of adjacent `{...}` segments.
pub open spec fn brace_chain_last(s: Seq<char>, q: int) -> int
    decreases s.len() - q when 0 <= q <= s.len()
{
    match brace_one(s, q) {
        Some(e) => if q < e <= s.len() && brace_one(s, e) is Some {
            brace_chain_last(s, e)
        } else {
            q
        },
        None => q,
    }
}

/// The cache rule, evaluated at position `p`: after a run of separators,
/// either a hexadecimal run ending at a word boundary or a chain of
/// brace-delimited segments; the token after the separators is the part that
/// is replaced. Without a leading separator nothing matches.
pub open spec fn cache_match_at(s: Seq<char>, p: int) -> Option<MatchS>
    recommends 0 <= p < s.len(),
{
    if !is_cache_sep(s[p]) {
        None
    } else {
        let q = run_end(s, p, CharClass::CacheSep);
        let h = run_end(s, q, CharClass::Hex);
        if h > q && boundary_after(s, h) {
            Some(MatchS { kind: Kind::CacheHex, end: h, gs: q, ge: h })
        } else if brace_one(s, q) is Some {
            Some(
                MatchS {
                    kind: Kind::CacheSegment,
                    end: brace_chain_end(s, q),
                    gs: brace_chain_last(s, q),
                    ge: brace_chain_end(s, q),
                },
            )
        } else {
            None
        }
    }
}

/// Decides `brace_one`.
pub fn brace_one_exec(s: &Vec<char>, q: usize) -> (r: Option<usize>)
    requires
        q <= s@.len(),
    ensures
        match r {
            Some(e) => brace_one(s@, q as int) == Some(e as int) && q < e <= s@.len(),
            None => brace_one(s@, q as int) is None,
        },
{
    if q < s.len() && s[q] == '{' {
        let r = class_run_end(s, q + 1, CharClass::NotCloseBrace);
        if r < s.len() && s[r] == '}' {
            Some(r + 1)
        } else {
            None
        }
    } else {
        None
    }
}

/// The cache rule at position `p`, computed at runtime.
#[verifier::loop_isolation(false)]
pub fn cache_match(s: &Vec<char>, p: usize) -> (r: Option<ExecMatch>)
    requires
        p < s@.len(),
    ensures
        match_corresponds(r, cache_match_at(s@, p as int)),
        r is Some ==> wf_match(s@, p as int, r->Some_0@),
{
    if !check_between(s, p, '-', '-') && !check_char(s, p, '.') && !check_char(s, p, '+')
        && !check_char(s, p, ':') && !check_char(s, p, '/') && !check_char(s, p, ' ')
        && !check_char(s, p, '\t') && !check_char(s, p, '\n') && !check_char(s, p, '\r')
        && !check_char(s, p, '\u{b}') && !check_char(s, p, '\u{c}') {
        assert(!is_cache_sep(s@[p as int]));
        return None;
    }
    assert(is_cache_sep(s@[p as int]));
    let q = class_run_end(s, p, CharClass::CacheSep);
    let h = class_run_end(s, q, CharClass::Hex);
    if h > q && check_boundary_after(s, h) {
        return Some(ExecMatch { kind: Kind::CacheHex, end: h, gs: q, ge: h });
    }
    proof {
        lemma_run_end(s@, p as int, CharClass::CacheSep);
    }
    match brace_one_exec(s, q) {
        Some(first_end) => {
            let mut cur = q;
            let mut e = first_end;
            loop
                invariant
                    q <= cur < e <= s@.len(),
                    brace_one(s@, cur as int) == Some(e as int),
                    brace_chain_end(s@, q as int) == brace_chain_end(s@, cur as int),
                    brace_chain_last(s@, q as int) == brace_chain_last(s@, cur as int),
                decreases s@.len() - cur,
            {
                match brace_one_exec(s, e) {
                    Some(e2) => {
                        cur = e;
                        e = e2;
                    }
                    None => {
                        assert(brace_chain_end(s@, cur as int) == e as int);
                        assert(brace_chain_last(s@, cur as int) == cur as int);
                        return Some(ExecMatch { kind: Kind::CacheSegment, end: e, gs: cur, ge: e });
                    }
                }
            }
        }
        None => None,
    }
}

} // verus!
