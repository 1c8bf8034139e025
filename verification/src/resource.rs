//! Resource-path normalization rule: identifiers, chunk names, trailing
//! hashes before the final file extension, version markers, long bare
//! hexadecimal runs and purely numeric file names are scrubbed.

use vstd::prelude::*;
use crate::chars::{CharClass, is_digit};
use crate::scan::{run_end, char_at, class_span, class_run_end, check_char, check_span};
use crate::token::{Kind, MatchS, ExecMatch, match_corresponds, wf_match};

verus! {

/// A hyphenated 8-4-4-4-12 hexadecimal identifier spans `[j, j+36)`.
pub open spec fn uuid_core_at(s: Seq<char>, j: int) -> bool {
    class_span(s, j, 8, CharClass::Hex) && char_at(s, j + 8, '-') && class_span(
        s, j + 9, 4, CharClass::Hex) && char_at(s, j + 13, '-') && class_span(
        s, j + 14, 4, CharClass::Hex) && char_at(s, j + 18, '-') && class_span(
        s, j + 19, 4, CharClass::Hex) && char_at(s, j + 23, '-') && class_span(
        s, j + 24, 12, CharClass::Hex)
}

/// Decides `uuid_core_at`.
pub fn check_uuid_core(s: &Vec<char>, j: usize) -> (r: bool)
    requires
        j <= s@.len(),
    ensures
        r == uuid_core_at(s@, j as int),
{
    let sn = s.len();
    assert(sn == s@.len());
    check_span(s, j, 8, CharClass::Hex) && check_char(s, j + 8, '-') && check_span(
        s, j + 9, 4, CharClass::Hex) && check_char(s, j + 13, '-') && check_span(
        s, j + 14, 4, CharClass::Hex) && check_char(s, j + 18, '-') && check_span(
        s, j + 19, 4, CharClass::Hex) && check_char(s, j + 23, '-') && check_span(
        s, j + 24, 12, CharClass::Hex)
}

/// The letters of `chunk`, in either case, follow a dot at `k`.
pub open spec fn chunk_word_at(s: Seq<char>, k: int) -> bool {
    char_at(s, k, '.') && (char_at(s, k + 1, 'c') || char_at(s, k + 1, 'C')) && (char_at(
        s, k + 2, 'h') || char_at(s, k + 2, 'H')) && (char_at(s, k + 3, 'u') || char_at(
        s, k + 3, 'U')) && (char_at(s, k + 4, 'n') || char_at(s, k + 4, 'N')) && (char_at(
        s, k + 5, 'k') || char_at(s, k + 5, 'K'))
}

/// Decides `chunk_word_at`.
pub fn check_chunk_word(s: &Vec<char>, k: usize) -> (r: bool)
    ensures
        r == chunk_word_at(s@, k as int),
{
    let sn = s.len();
    assert(sn == s@.len());
    check_char(s, k, '.') && (check_char(s, k + 1, 'c') || check_char(s, k + 1, 'C')) && (
    check_char(s, k + 2, 'h') || check_char(s, k + 2, 'H')) && (check_char(s, k + 3, 'u')
        || check_char(s, k + 3, 'U')) && (check_char(s, k + 4, 'n') || check_char(s, k + 4, 'N'))
        && (check_char(s, k + 5, 'k') || check_char(s, k + 5, 'K'))
}

/// End of a chunk identifier at `p`: an optional chunk number with its dot,
/// eight hexadecimal digits, and a `.chunk` suffix.
pub open spec fn chunk_end(s: Seq<char>, p: int) -> Option<int> {
    if 0 <= p < s.len() && is_digit(s[p]) && char_at(s, run_end(s, p, CharClass::Digit), '.')
        && class_span(s, run_end(s, p, CharClass::Digit) + 1, 8, CharClass::Hex) && chunk_word_at(
        s, run_end(s, p, CharClass::Digit) + 9) {
        Some(run_end(s, p, CharClass::Digit) + 15)
    } else if class_span(s, p, 8, CharClass::Hex) && chunk_word_at(s, p + 8) {
        Some(p + 14)
    } else {
        None
    }
}

/// Decides `chunk_end`.
pub fn chunk_end_exec(s: &Vec<char>, p: usize) -> (r: Option<usize>)
    requires
        p < s@.len(),
    ensures
        match r {
            Some(e) => chunk_end(s@, p as int) == Some(e as int) && p < e <= s@.len(),
            None => chunk_end(s@, p as int) is None,
        },
{
    let sn = s.len();
    assert(sn == s@.len());
    if '0' <= s[p] && s[p] <= '9' {
        let d = class_run_end(s, p, CharClass::Digit);
        if check_char(s, d, '.') && check_span(s, d + 1, 8, CharClass::Hex) && check_chunk_word(
            s, d + 9) {
            return Some(d + 15);
        }
    }
    if check_span(s, p, 8, CharClass::Hex) && check_chunk_word(s, p + 8) {
        Some(p + 14)
    } else {
        None
    }
}

/// The characters from `k` to the end of the text form a file extension: two
/// to six letters or digits.
pub open spec fn ext_ok(s: Seq<char>, k: int) -> bool {
    0 <= k <= s.len() && run_end(s, k, CharClass::Alnum) == s.len() && 2 <= s.len() - k <= 6
}

/// Decides `ext_ok`.
pub fn check_ext(s: &Vec<char>, k: usize) -> (r: bool)
    requires
        k <= s@.len(),
    ensures
        r == ext_ok(s@, k as int),
{
    let a = class_run_end(s, k, CharClass::Alnum);
    a == s.len() && 2 <= s.len() - k && s.len() - k <= 6
}

/// End of the last hexadecimal run of a dot-separated chain of hash runs
/// (each at least eight digits long) that reaches the final file extension at
/// the end of the text.
pub open spec fn th_chain(s: Seq<char>, q: int) -> Option<int>
    decreases s.len() - q when 0 <= q <= s.len()
{
    let r = run_end(s, q, CharClass::Hex);
    if r - q < 8 || !char_at(s, r, '.') {
        None
    } else if q < r + 1 <= s.len() && th_chain(s, r + 1) is Some {
        th_chain(s, r + 1)
    } else if char_at(s, r + 1, '.') && ext_ok(s, r + 2) {
        Some(r + 1)
    } else if ext_ok(s, r + 1) {
        Some(r)
    } else {
        None
    }
}

/// Decides `th_chain`.
pub fn th_chain_exec(s: &Vec<char>, q: usize) -> (r: Option<usize>)
    requires
        q <= s@.len(),
    ensures
        match r {
            Some(e) => th_chain(s@, q as int) == Some(e as int) && q < e < s@.len(),
            None => th_chain(s@, q as int) is None,
        },
    decreases s@.len() - q,
{
    let sn = s.len();
    assert(sn == s@.len());
    let r = class_run_end(s, q, CharClass::Hex);
    if r - q < 8 || !check_char(s, r, '.') {
        return None;
    }
    match th_chain_exec(s, r + 1) {
        Some(e) => Some(e),
        None => {
            if check_char(s, r + 1, '.') && check_ext(s, r + 2) {
                Some(r + 1)
            } else if check_ext(s, r + 1) {
                Some(r)
            } else {
                None
            }
        }
    }
}

/// End of a version marker at `p`: a `v`, a digit run, and further dotted
/// digit runs.
pub open spec fn ver_chain(s: Seq<char>, q: int) -> int
    decreases s.len() - q when 0 <= q <= s.len()
{
    if char_at(s, q, '.') && run_end(s, q + 1, CharClass::Digit) > q + 1 && run_end(
        s, q + 1, CharClass::Digit) <= s.len() {
        ver_chain(s, run_end(s, q + 1, CharClass::Digit))
    } else {
        q
    }
}

/// Decides `ver_chain`.
#[verifier::loop_isolation(false)]
pub fn ver_chain_exec(s: &Vec<char>, q: usize) -> (r: usize)
    requires
        q <= s@.len(),
    ensures
        r == ver_chain(s@, q as int),
        q <= r <= s@.len(),
{
    let sn = s.len();
    let mut cur = q;
    loop
        invariant
            q <= cur <= sn == s@.len(),
            ver_chain(s@, q as int) == ver_chain(s@, cur as int),
        decreases s@.len() - cur,
    {
        if check_char(s, cur, '.') {
            let d = class_run_end(s, cur + 1, CharClass::Digit);
            if d > cur + 1 {
                cur = d;
                continue ;
            }
        }
        assert(ver_chain(s@, cur as int) == cur as int);
        return cur;
    }
}

/// The resource rule, evaluated at position `p`: the alternatives in
/// declaration order; the rules for trailing hashes and purely numeric file
/// names only fire when they reach the end of the text.
pub open spec fn res_match_at(s: Seq<char>, p: int) -> Option<MatchS>
    recommends 0 <= p < s.len(),
{
    if uuid_core_at(s, p) {
        Some(MatchS { kind: Kind::Uuid, end: p + 36, gs: p, ge: p + 36 })
    } else if chunk_end(s, p) is Some {
        let e = chunk_end(s, p)->Some_0;
        Some(MatchS { kind: Kind::Chunk, end: e, gs: p, ge: e })
    } else if (s[p] == '-' || s[p] == '.') && th_chain(s, p + 1) is Some {
        let c = th_chain(s, p + 1)->Some_0;
        Some(MatchS { kind: Kind::TrailingHash, end: s.len() as int, gs: p + 1, ge: c })
    } else if (s[p] == 'v' || s[p] == 'V') && run_end(s, p + 1, CharClass::Digit) > p + 1 {
        let e = ver_chain(s, run_end(s, p + 1, CharClass::Digit));
        Some(MatchS { kind: Kind::Version, end: e, gs: p, ge: e })
    } else if run_end(s, p, CharClass::Hex) - p >= 16 {
        let e = if run_end(s, p, CharClass::Hex) - p > 64 {
            p + 64
        } else {
            run_end(s, p, CharClass::Hex)
        };
        Some(MatchS { kind: Kind::LargeHash, end: e, gs: p, ge: e })
    } else if s[p] == '/' && run_end(s, p + 1, CharClass::Digit) > p + 1 && char_at(
        s, run_end(s, p + 1, CharClass::Digit), '.') && ext_ok(
        s, run_end(s, p + 1, CharClass::Digit) + 1) {
        Some(MatchS { kind: Kind::OnlyNumbers, end: s.len() as int, gs: p, ge: s.len() as int })
    } else {
        None
    }
}

/// The resource rule at position `p`, computed at runtime.
pub fn res_match(s: &Vec<char>, p: usize) -> (r: Option<ExecMatch>)
    requires
        p < s@.len(),
    ensures
        match_corresponds(r, res_match_at(s@, p as int)),
        r is Some ==> wf_match(s@, p as int, r->Some_0@),
{
    let sn = s.len();
    assert(sn == s@.len());
    if check_uuid_core(s, p) {
        return Some(ExecMatch { kind: Kind::Uuid, end: p + 36, gs: p, ge: p + 36 });
    }
    match chunk_end_exec(s, p) {
        Some(e) => {
            return Some(ExecMatch { kind: Kind::Chunk, end: e, gs: p, ge: e });
        }
        None => {}
    }
    if s[p] == '-' || s[p] == '.' {
        match th_chain_exec(s, p + 1) {
            Some(c) => {
                return Some(ExecMatch { kind: Kind::TrailingHash, end: sn, gs: p + 1, ge: c });
            }
            None => {}
        }
    }
    if s[p] == 'v' || s[p] == 'V' {
        let d = class_run_end(s, p + 1, CharClass::Digit);
        if d > p + 1 {
            let e = ver_chain_exec(s, d);
            return Some(ExecMatch { kind: Kind::Version, end: e, gs: p, ge: e });
        }
    }
    let h = class_run_end(s, p, CharClass::Hex);
    if h - p >= 16 {
        let e = if h - p > 64 {
            p + 64
        } else {
            h
        };
        return Some(ExecMatch { kind: Kind::LargeHash, end: e, gs: p, ge: e });
    }
    if s[p] == '/' {
        let d = class_run_end(s, p + 1, CharClass::Digit);
        if d > p + 1 && check_char(s, d, '.') && check_ext(s, d + 1) {
            return Some(ExecMatch { kind: Kind::OnlyNumbers, end: sn, gs: p, ge: sn });
        }
    }
    None
}

} // verus!
