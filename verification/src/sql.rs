//! SQL normalization rule: parameter lists of `IN (...)` clauses, `SAVEPOINT`
//! identifiers, single-quoted string literals, numeric literals and boolean
//! literals are scrubbed; keywords, identifiers and double-quoted names stay.

use vstd::prelude::*;
use crate::chars::{CharClass, is_digit, is_alpha};
use crate::scan::{run_end, lemma_run_end, boundary_before, boundary_after, char_at, class_run_end,
    check_char, check_boundary_before, check_boundary_after};
use crate::token::{Kind, MatchS, ExecMatch, match_corresponds, wf_match};

verus! {

/// The character at `i`, if any, is the given letter in either case.
pub open spec fn char_ci_at(s: Seq<char>, i: int, lo: char, up: char) -> bool {
    0 <= i < s.len() && (s[i] == lo || s[i] == up)
}

/// Decides `char_ci_at`.
pub fn check_ci(s: &Vec<char>, i: usize, lo: char, up: char) -> (r: bool)
    ensures
        r == char_ci_at(s@, i as int, lo, up),
{
    i < s.len() && (s[i] == lo || s[i] == up)
}

/// End of one parameter of an `IN` list starting at `q`: a placeholder marker,
/// an optionally dollar-prefixed number, or a question mark.
pub open spec fn param_end(s: Seq<char>, q: int) -> Option<int> {
    if char_at(s, q, '%') && char_ci_at(s, q + 1, 's', 'S') {
        Some(q + 2)
    } else if char_at(s, q, '$') {
        if run_end(s, q + 1, CharClass::Digit) > q + 1 {
            Some(run_end(s, q + 1, CharClass::Digit))
        } else {
            None
        }
    } else if 0 <= q < s.len() && is_digit(s[q]) {
        Some(run_end(s, q, CharClass::Digit))
    } else if char_at(s, q, '?') {
        Some(q + 1)
    } else {
        None
    }
}

/// Decides `param_end`.
pub fn param_end_exec(s: &Vec<char>, q: usize) -> (r: Option<usize>)
    requires
        q <= s@.len(),
    ensures
        match r {
            Some(e) => param_end(s@, q as int) == Some(e as int) && q < e <= s@.len(),
            None => param_end(s@, q as int) is None,
        },
{
    let sn = s.len();
    if check_char(s, q, '%') && check_ci(s, q + 1, 's', 'S') {
        Some(q + 2)
    } else if check_char(s, q, '$') {
        let d = class_run_end(s, q + 1, CharClass::Digit);
        if d > q + 1 {
            Some(d)
        } else {
            None
        }
    } else if q < sn && '0' <= s[q] && s[q] <= '9' {
        let d = class_run_end(s, q, CharClass::Digit);
        proof {
            lemma_run_end(s@, q as int, CharClass::Digit);
        }
        assert(run_end(s@, q as int, CharClass::Digit) > q as int);
        Some(d)
    } else if check_char(s, q, '?') {
        Some(q + 1)
    } else {
        None
    }
}

/// Position of the closing parenthesis after the rest of an `IN` list, given
/// the end `q` of a parameter: either the parenthesis follows directly, or a
/// comma (with optional surrounding whitespace) and a further parameter do.
pub open spec fn params_tail(s: Seq<char>, q: int) -> Option<int>
    decreases s.len() - q when 0 <= q <= s.len()
{
    if char_at(s, q, ')') {
        Some(q)
    } else {
        let a = run_end(s, q, CharClass::Space);
        if char_at(s, a, ',') {
            let b = run_end(s, a + 1, CharClass::Space);
            match param_end(s, b) {
                Some(e) => if q < e <= s.len() {
                    params_tail(s, e)
                } else {
                    None
                },
                None => None,
            }
        } else {
            None
        }
    }
}

/// Decides `params_tail`.
#[verifier::loop_isolation(false)]
pub fn params_tail_exec(s: &Vec<char>, q: usize) -> (r: Option<usize>)
    requires
        q <= s@.len(),
    ensures
        match r {
            Some(e) => params_tail(s@, q as int) == Some(e as int) && q <= e < s@.len(),
            None => params_tail(s@, q as int) is None,
        },
{
    let sn = s.len();
    let mut cur = q;
    loop
        invariant
            q <= cur <= sn == s@.len(),
            params_tail(s@, q as int) == params_tail(s@, cur as int),
        decreases s@.len() - cur,
    {
        if check_char(s, cur, ')') {
            return Some(cur);
        }
        let a = class_run_end(s, cur, CharClass::Space);
        if !check_char(s, a, ',') {
            return None;
        }
        let b = class_run_end(s, a + 1, CharClass::Space);
        match param_end_exec(s, b) {
            Some(e) => {
                cur = e;
            }
            None => {
                return None;
            }
        }
    }
}

/// End of a single-quoted SQL string, scanning from `q`, the position just
/// after the opening quote: doubled quotes stay inside the literal, a
/// backslash-escaped quote swallows the rest of the line, and the shortest
/// completion wins.
pub open spec fn sq_end(s: Seq<char>, q: int) -> Option<int>
    decreases s.len() - q when 0 <= q <= s.len()
{
    if q >= s.len() {
        None
    } else if s[q] == '\\' && char_at(s, q + 1, '\'') {
        Some(run_end(s, q + 2, CharClass::NotNewline))
    } else if s[q] != '\'' && char_at(s, q + 1, '\'') {
        Some(q + 2)
    } else if s[q] == '\'' && char_at(s, q + 1, '\'') {
        sq_end(s, q + 2)
    } else if s[q] != '\'' {
        sq_end(s, q + 1)
    } else {
        None
    }
}

/// Decides `sq_end`.
#[verifier::loop_isolation(false)]
pub fn sq_end_exec(s: &Vec<char>, q: usize) -> (r: Option<usize>)
    requires
        q <= s@.len(),
    ensures
        match r {
            Some(e) => sq_end(s@, q as int) == Some(e as int) && q < e <= s@.len(),
            None => sq_end(s@, q as int) is None,
        },
{
    let sn = s.len();
    let mut cur = q;
    loop
        invariant
            q <= cur <= sn == s@.len(),
            sq_end(s@, q as int) == sq_end(s@, cur as int),
        decreases s@.len() - cur,
    {
        if cur >= s.len() {
            return None;
        }
        if s[cur] == '\\' && check_char(s, cur + 1, '\'') {
            let e = class_run_end(s, cur + 2, CharClass::NotNewline);
            return Some(e);
        }
        if s[cur] != '\'' && check_char(s, cur + 1, '\'') {
            return Some(cur + 2);
        }
        if s[cur] == '\'' && check_char(s, cur + 1, '\'') {
            cur = cur + 2;
        } else if s[cur] != '\'' {
            cur = cur + 1;
        } else {
            return None;
        }
    }
}

/// End of the exponent part of a numeric literal starting at `q`, if one is
/// fully present.
pub open spec fn exp_end(s: Seq<char>, q: int) -> Option<int> {
    if char_ci_at(s, q, 'e', 'E') {
        let t = if char_at(s, q + 1, '+') || char_at(s, q + 1, '-') {
            q + 2
        } else {
            q + 1
        };
        if run_end(s, t, CharClass::Digit) > t {
            Some(run_end(s, t, CharClass::Digit))
        } else {
            None
        }
    } else {
        None
    }
}

/// Decides `exp_end`.
pub fn exp_end_exec(s: &Vec<char>, q: usize) -> (r: Option<usize>)
    requires
        q <= s@.len(),
    ensures
        match r {
            Some(e) => exp_end(s@, q as int) == Some(e as int) && q < e <= s@.len(),
            None => exp_end(s@, q as int) is None,
        },
{
    let sn = s.len();
    assert(sn == s@.len());
    if !check_ci(s, q, 'e', 'E') {
        return None;
    }
    let t = if check_char(s, q + 1, '+') || check_char(s, q + 1, '-') {
        q + 2
    } else {
        q + 1
    };
    let d = class_run_end(s, t, CharClass::Digit);
    if d > t {
        Some(d)
    } else {
        None
    }
}

/// End of a SQL numeric literal starting at `p`: an optional minus sign, a
/// digit run, an optional fractional part, an optional exponent, ending at a
/// word boundary; when a longer form is not closed by a word boundary the
/// bare integer part still matches before its dot.
pub open spec fn num_end(s: Seq<char>, p: int) -> Option<int> {
    let neg = char_at(s, p, '-');
    let q0 = if neg {
        p + 1
    } else {
        p
    };
    if !neg && !boundary_before(s, p) {
        None
    } else {
        let r1 = run_end(s, q0, CharClass::Digit);
        if r1 == q0 {
            None
        } else if char_at(s, r1, '.') && r1 + 1 < s.len() && is_digit(s[r1 + 1]) {
            let m = run_end(s, r1 + 1, CharClass::Digit);
            match exp_end(s, m) {
                Some(x) => if boundary_after(s, x) {
                    Some(x)
                } else if boundary_after(s, m) {
                    Some(m)
                } else {
                    Some(r1)
                },
                None => if boundary_after(s, m) {
                    Some(m)
                } else {
                    Some(r1)
                },
            }
        } else {
            match exp_end(s, r1) {
                Some(x) => if boundary_after(s, x) {
                    Some(x)
                } else {
                    None
                },
                None => if boundary_after(s, r1) {
                    Some(r1)
                } else {
                    None
                },
            }
        }
    }
}

/// Decides `num_end`.
pub fn num_end_exec(s: &Vec<char>, p: usize) -> (r: Option<usize>)
    requires
        p < s@.len(),
    ensures
        match r {
            Some(e) => num_end(s@, p as int) == Some(e as int) && p < e <= s@.len(),
            None => num_end(s@, p as int) is None,
        },
{
    let sn = s.len();
    assert(sn == s@.len());
    let neg = s[p] == '-';
    let q0 = if neg {
        p + 1
    } else {
        p
    };
    if !neg && !check_boundary_before(s, p) {
        return None;
    }
    let r1 = class_run_end(s, q0, CharClass::Digit);
    if r1 == q0 {
        return None;
    }
    if check_char(s, r1, '.') && r1 + 1 < s.len() && '0' <= s[r1 + 1] && s[r1 + 1] <= '9' {
        let m = class_run_end(s, r1 + 1, CharClass::Digit);
        match exp_end_exec(s, m) {
            Some(x) => {
                if check_boundary_after(s, x) {
                    Some(x)
                } else if check_boundary_after(s, m) {
                    Some(m)
                } else {
                    Some(r1)
                }
            }
            None => {
                if check_boundary_after(s, m) {
                    Some(m)
                } else {
                    Some(r1)
                }
            }
        }
    } else {
        match exp_end_exec(s, r1) {
            Some(x) => {
                if check_boundary_after(s, x) {
                    Some(x)
                } else {
                    None
                }
            }
            None => {
                if check_boundary_after(s, r1) {
                    Some(r1)
                } else {
                    None
                }
            }
        }
    }
}

/// End of a boolean literal (`true` or `false`, any letter case) standing as
/// a full word at `p`.
pub open spec fn bool_end(s: Seq<char>, p: int) -> Option<int> {
    if !boundary_before(s, p) {
        None
    } else if char_ci_at(s, p, 't', 'T') && char_ci_at(s, p + 1, 'r', 'R') && char_ci_at(
        s, p + 2, 'u', 'U') && char_ci_at(s, p + 3, 'e', 'E') && boundary_after(s, p + 4) {
        Some(p + 4)
    } else if char_ci_at(s, p, 'f', 'F') && char_ci_at(s, p + 1, 'a', 'A') && char_ci_at(
        s, p + 2, 'l', 'L') && char_ci_at(s, p + 3, 's', 'S') && char_ci_at(s, p + 4, 'e', 'E')
        && boundary_after(s, p + 5) {
        Some(p + 5)
    } else {
        None
    }
}

/// Decides `bool_end`.
pub fn bool_end_exec(s: &Vec<char>, p: usize) -> (r: Option<usize>)
    requires
        p < s@.len(),
    ensures
        match r {
            Some(e) => bool_end(s@, p as int) == Some(e as int) && p < e <= s@.len(),
            None => bool_end(s@, p as int) is None,
        },
{
    let sn = s.len();
    assert(sn == s@.len());
    if !check_boundary_before(s, p) {
        None
    } else if check_ci(s, p, 't', 'T') && check_ci(s, p + 1, 'r', 'R') && check_ci(
        s, p + 2, 'u', 'U') && check_ci(s, p + 3, 'e', 'E') && check_boundary_after(s, p + 4) {
        Some(p + 4)
    } else if check_ci(s, p, 'f', 'F') && check_ci(s, p + 1, 'a', 'A') && check_ci(
        s, p + 2, 'l', 'L') && check_ci(s, p + 3, 's', 'S') && check_ci(s, p + 4, 'e', 'E')
        && check_boundary_after(s, p + 5) {
        Some(p + 5)
    } else {
        None
    }
}

/// Whether the case-insensitive keyword `IN (` begins at `p`.
pub open spec fn in_kw_at(s: Seq<char>, p: int) -> bool {
    char_ci_at(s, p, 'i', 'I') && char_ci_at(s, p + 1, 'n', 'N') && char_at(s, p + 2, ' ')
        && char_at(s, p + 3, '(')
}

/// Whether the case-insensitive keyword `SAVEPOINT ` begins at `p`.
pub open spec fn savepoint_kw_at(s: Seq<char>, p: int) -> bool {
    char_ci_at(s, p, 's', 'S') && char_ci_at(s, p + 1, 'a', 'A') && char_ci_at(s, p + 2, 'v', 'V')
        && char_ci_at(s, p + 3, 'e', 'E') && char_ci_at(s, p + 4, 'p', 'P') && char_ci_at(
        s, p + 5, 'o', 'O') && char_ci_at(s, p + 6, 'i', 'I') && char_ci_at(s, p + 7, 'n', 'N')
        && char_ci_at(s, p + 8, 't', 'T') && char_at(s, p + 9, ' ')
}

/// End of the savepoint name starting at `g`: a quoted name in double quotes,
/// single quotes or backticks, or a plain identifier of at least two
/// characters starting with a letter.
pub open spec fn savepoint_name_end(s: Seq<char>, g: int) -> Option<int> {
    if char_at(s, g, '"') {
        let r = run_end(s, g + 1, CharClass::NotDoubleQuote);
        if r > g + 1 && r < s.len() && s[r] == '"' {
            Some(r + 1)
        } else {
            None
        }
    } else if char_at(s, g, '\'') {
        let r = run_end(s, g + 1, CharClass::NotSingleQuote);
        if r > g + 1 && r < s.len() && s[r] == '\'' {
            Some(r + 1)
        } else {
            None
        }
    } else if char_at(s, g, '`') {
        let r = run_end(s, g + 1, CharClass::NotBacktick);
        if r > g + 1 && r < s.len() && s[r] == '`' {
            Some(r + 1)
        } else {
            None
        }
    } else if 0 <= g < s.len() && is_alpha(s[g]) {
        let r = run_end(s, g + 1, CharClass::Word);
        if r > g + 1 {
            Some(r)
        } else {
            None
        }
    } else {
        None
    }
}

/// Decides `savepoint_name_end`.
pub fn savepoint_name_end_exec(s: &Vec<char>, g: usize) -> (r: Option<usize>)
    requires
        g <= s@.len(),
    ensures
        match r {
            Some(e) => savepoint_name_end(s@, g as int) == Some(e as int) && g < e <= s@.len(),
            None => savepoint_name_end(s@, g as int) is None,
        },
{
    let sn = s.len();
    assert(sn == s@.len());
    if check_char(s, g, '"') {
        let r = class_run_end(s, g + 1, CharClass::NotDoubleQuote);
        if r > g + 1 && r < s.len() && s[r] == '"' {
            Some(r + 1)
        } else {
            None
        }
    } else if check_char(s, g, '\'') {
        let r = class_run_end(s, g + 1, CharClass::NotSingleQuote);
        if r > g + 1 && r < s.len() && s[r] == '\'' {
            Some(r + 1)
        } else {
            None
        }
    } else if check_char(s, g, '`') {
        let r = class_run_end(s, g + 1, CharClass::NotBacktick);
        if r > g + 1 && r < s.len() && s[r] == '`' {
            Some(r + 1)
        } else {
            None
        }
    } else if g < s.len() && (('a' <= s[g] && s[g] <= 'z') || ('A' <= s[g] && s[g] <= 'Z')) {
        let r = class_run_end(s, g + 1, CharClass::Word);
        if r > g + 1 {
            Some(r)
        } else {
            None
        }
    } else {
        None
    }
}

/// The SQL rule, evaluated at position `p`: the alternatives in declaration
/// order, the first that matches winning.
pub open spec fn sql_match_at(s: Seq<char>, p: int) -> Option<MatchS>
    recommends 0 <= p < s.len(),
{
    if in_kw_at(s, p) && param_end(s, p + 4) is Some && params_tail(
        s, param_end(s, p + 4)->Some_0) is Some {
        let rp = params_tail(s, param_end(s, p + 4)->Some_0)->Some_0;
        Some(MatchS { kind: Kind::SqlParams, end: rp + 1, gs: p + 4, ge: rp })
    } else if savepoint_kw_at(s, p) && savepoint_name_end(s, p + 10) is Some {
        let e = savepoint_name_end(s, p + 10)->Some_0;
        Some(MatchS { kind: Kind::Savepoint, end: e, gs: p + 10, ge: e })
    } else if 0 <= p < s.len() && s[p] == '\'' && sq_end(s, p + 1) is Some {
        let e = sq_end(s, p + 1)->Some_0;
        Some(MatchS { kind: Kind::QuotedString, end: e, gs: p, ge: e })
    } else if num_end(s, p) is Some {
        let e = num_end(s, p)->Some_0;
        Some(MatchS { kind: Kind::Number, end: e, gs: p, ge: e })
    } else if bool_end(s, p) is Some {
        let e = bool_end(s, p)->Some_0;
        Some(MatchS { kind: Kind::Boolean, end: e, gs: p, ge: e })
    } else {
        None
    }
}

/// The SQL rule at position `p`, computed at runtime.
pub fn sql_match(s: &Vec<char>, p: usize) -> (r: Option<ExecMatch>)
    requires
        p < s@.len(),
    ensures
        match_corresponds(r, sql_match_at(s@, p as int)),
        r is Some ==> wf_match(s@, p as int, r->Some_0@),
{
    let sn = s.len();
    assert(sn == s@.len());
    if check_ci(s, p, 'i', 'I') && check_ci(s, p + 1, 'n', 'N') && check_char(s, p + 2, ' ')
        && check_char(s, p + 3, '(') {
        match param_end_exec(s, p + 4) {
            Some(e0) => {
                match params_tail_exec(s, e0) {
                    Some(rp) => {
                        return Some(
                            ExecMatch { kind: Kind::SqlParams, end: rp + 1, gs: p + 4, ge: rp },
                        );
                    }
                    None => {}
                }
            }
            None => {}
        }
    }
    if check_ci(s, p, 's', 'S') && check_ci(s, p + 1, 'a', 'A') && check_ci(s, p + 2, 'v', 'V')
        && check_ci(s, p + 3, 'e', 'E') && check_ci(s, p + 4, 'p', 'P') && check_ci(
        s, p + 5, 'o', 'O') && check_ci(s, p + 6, 'i', 'I') && check_ci(s, p + 7, 'n', 'N')
        && check_ci(s, p + 8, 't', 'T') && check_char(s, p + 9, ' ') {
        match savepoint_name_end_exec(s, p + 10) {
            Some(e) => {
                return Some(ExecMatch { kind: Kind::Savepoint, end: e, gs: p + 10, ge: e });
            }
            None => {}
        }
    }
    if s[p] == '\'' {
        match sq_end_exec(s, p + 1) {
            Some(e) => {
                return Some(ExecMatch { kind: Kind::QuotedString, end: e, gs: p, ge: e });
            }
            None => {}
        }
    }
    match num_end_exec(s, p) {
        Some(e) => {
            return Some(ExecMatch { kind: Kind::Number, end: e, gs: p, ge: e });
        }
        None => {}
    }
    match bool_end_exec(s, p) {
        Some(e) => {
            return Some(ExecMatch { kind: Kind::Boolean, end: e, gs: p, ge: e });
        }
        None => {}
    }
    None
}

} // verus!
