//! Transaction-name normalization rule: a path segment containing an
//! identifier, digest, date, hexadecimal literal or digit run is collapsed
//! whole, because one high-cardinality token contaminates the entire segment
//! for grouping purposes.

use vstd::prelude::*;
use crate::chars::{CharClass, is_digit, is_hex, is_path_sep, in_class};
use crate::scan::{run_end, lemma_run_end, boundary_before, boundary_after, char_at, class_span,
    char_between, class_run_end, check_char, check_span, check_between, check_boundary_before,
    check_boundary_after};
use crate::resource::{uuid_core_at, check_uuid_core};
use crate::token::{Kind, MatchS, ExecMatch, match_corresponds, wf_match};

verus! {

/// A full-word hyphenated identifier stands at `j`.
pub open spec fn tx_uuid_token_at(s: Seq<char>, j: int) -> bool {
    boundary_before(s, j) && uuid_core_at(s, j) && boundary_after(s, j + 36)
}

/// A full-word hexadecimal digest of `n` digits stands at `j`.
pub open spec fn tx_hexn_token_at(s: Seq<char>, j: int, n: int) -> bool {
    boundary_before(s, j) && class_span(s, j, n, CharClass::Hex) && boundary_after(s, j + n)
}

/// A full-word `0x`-prefixed hexadecimal literal stands at `j`.
pub open spec fn tx_hexlit_token_at(s: Seq<char>, j: int) -> bool {
    boundary_before(s, j) && char_at(s, j, '0') && (char_at(s, j + 1, 'x') || char_at(
        s, j + 1, 'X')) && run_end(s, j + 2, CharClass::Hex) > j + 2 && boundary_after(
        s, run_end(s, j + 2, CharClass::Hex))
}

/// One of the three-letter weekday names stands at `j`.
pub open spec fn weekday_at(s: Seq<char>, j: int) -> bool {
    (char_at(s, j, 'S') && char_at(s, j + 1, 'u') && char_at(s, j + 2, 'n')) || (char_at(s, j, 'M')
        && char_at(s, j + 1, 'o') && char_at(s, j + 2, 'n')) || (char_at(s, j, 'T') && char_at(
        s, j + 1, 'u') && char_at(s, j + 2, 'e')) || (char_at(s, j, 'W') && char_at(s, j + 1, 'e')
        && char_at(s, j + 2, 'd')) || (char_at(s, j, 'T') && char_at(s, j + 1, 'h') && char_at(
        s, j + 2, 'u')) || (char_at(s, j, 'F') && char_at(s, j + 1, 'r') && char_at(s, j + 2, 'i'))
        || (char_at(s, j, 'S') && char_at(s, j + 1, 'a') && char_at(s, j + 2, 't'))
}

/// One of the three-letter month names stands at `j`.
pub open spec fn month_at(s: Seq<char>, j: int) -> bool {
    (char_at(s, j, 'J') && char_at(s, j + 1, 'a') && char_at(s, j + 2, 'n')) || (char_at(s, j, 'F')
        && char_at(s, j + 1, 'e') && char_at(s, j + 2, 'b')) || (char_at(s, j, 'M') && char_at(
        s, j + 1, 'a') && char_at(s, j + 2, 'r')) || (char_at(s, j, 'A') && char_at(s, j + 1, 'p')
        && char_at(s, j + 2, 'r')) || (char_at(s, j, 'M') && char_at(s, j + 1, 'a') && char_at(
        s, j + 2, 'y')) || (char_at(s, j, 'J') && char_at(s, j + 1, 'u') && char_at(s, j + 2, 'n'))
        || (char_at(s, j, 'J') && char_at(s, j + 1, 'u') && char_at(s, j + 2, 'l')) || (char_at(
        s, j, 'A') && char_at(s, j + 1, 'u') && char_at(s, j + 2, 'g')) || (char_at(s, j, 'S')
        && char_at(s, j + 1, 'e') && char_at(s, j + 2, 'p')) || (char_at(s, j, 'O') && char_at(
        s, j + 1, 'c') && char_at(s, j + 2, 't')) || (char_at(s, j, 'N') && char_at(s, j + 1, 'o')
        && char_at(s, j + 2, 'v')) || (char_at(s, j, 'D') && char_at(s, j + 1, 'e') && char_at(
        s, j + 2, 'c'))
}

/// A calendar date prefix of an ISO timestamp stands at `j`:
/// four digits, a dash, a month, a dash, a day, a `T`, hours and minutes.
pub open spec fn iso_prefix_at(s: Seq<char>, j: int) -> bool {
    class_span(s, j, 4, CharClass::Digit) && char_at(s, j + 4, '-') && char_between(
        s, j + 5, '0', '1') && char_between(s, j + 6, '0', '9') && char_at(s, j + 7, '-')
        && char_between(s, j + 8, '0', '3') && char_between(s, j + 9, '0', '9') && char_at(
        s, j + 10, 'T') && char_between(s, j + 11, '0', '2') && char_between(s, j + 12, '0', '9')
        && char_at(s, j + 13, ':') && char_between(s, j + 14, '0', '5') && char_between(
        s, j + 15, '0', '9')
}

/// An ISO timestamp zone stands at `k`: a `Z` or a signed hour-minute offset.
pub open spec fn iso_tz_at(s: Seq<char>, k: int) -> bool {
    char_at(s, k, 'Z') || ((char_at(s, k, '+') || char_at(s, k, '-')) && char_between(
        s, k + 1, '0', '2') && char_between(s, k + 2, '0', '9') && char_at(s, k + 3, ':')
        && char_between(s, k + 4, '0', '5') && char_between(s, k + 5, '0', '9'))
}

/// An ISO timestamp stands at `j`: the date-time prefix, then optional
/// seconds, an optional fraction, and a zone.
pub open spec fn iso_at(s: Seq<char>, j: int) -> bool {
    iso_prefix_at(s, j) && ((char_at(s, j + 16, ':') && char_between(s, j + 17, '0', '5')
        && char_between(s, j + 18, '0', '9') && ((char_at(s, j + 19, '.') && run_end(
        s, j + 20, CharClass::Digit) > j + 20 && iso_tz_at(s, run_end(s, j + 20, CharClass::Digit)))
        || iso_tz_at(s, j + 19))) || iso_tz_at(s, j + 16))
}

/// The month-first part of a weekday-style date: month, day, time and year,
/// separated by whitespace, starting at `m`.
pub open spec fn asctime_rest_at(s: Seq<char>, m: int) -> bool {
    month_at(s, m) && run_end(s, m + 3, CharClass::Space) > m + 3 && {
        let a = run_end(s, m + 3, CharClass::Space);
        let d = run_end(s, a, CharClass::Digit);
        1 <= d - a <= 2 && run_end(s, d, CharClass::Space) > d && {
            let b = run_end(s, d, CharClass::Space);
            char_between(s, b, '0', '9') && char_between(s, b + 1, '0', '9') && char_at(
                s, b + 2, ':') && char_between(s, b + 3, '0', '9') && char_between(
                s, b + 4, '0', '9') && char_at(s, b + 5, ':') && char_between(s, b + 6, '0', '9')
                && char_between(s, b + 7, '0', '9') && run_end(s, b + 8, CharClass::Space) > b + 8
                && class_span(s, run_end(s, b + 8, CharClass::Space), 4, CharClass::Digit)
        }
    }
}

/// A weekday-style date stands at `j`: an optional weekday, then the
/// month-first rest, at a word boundary.
pub open spec fn asctime_at(s: Seq<char>, j: int) -> bool {
    boundary_before(s, j) && ((weekday_at(s, j) && run_end(s, j + 3, CharClass::Space) > j + 3
        && asctime_rest_at(s, run_end(s, j + 3, CharClass::Space))) || asctime_rest_at(s, j))
}

/// A two-digit day-of-month between 01 and 31 stands at `a`.
pub open spec fn day2_ok(s: Seq<char>, a: int) -> bool {
    (char_at(s, a, '0') && char_between(s, a + 1, '1', '9')) || (char_between(s, a, '1', '2')
        && char_between(s, a + 1, '0', '9')) || (char_at(s, a, '3') && char_between(
        s, a + 1, '0', '1'))
}

/// A time zone of a day-first date stands at `z`: a signed four-digit offset
/// or an upper-case zone letter (`J` excluded).
pub open spec fn zone_ok(s: Seq<char>, z: int) -> bool {
    (0 <= z < s.len() && 'A' <= s[z] && s[z] <= 'Z' && s[z] != 'J') || ((char_at(s, z, '+')
        || char_at(s, z, '-')) && char_between(s, z + 1, '0', '9') && char_between(
        s, z + 2, '0', '9') && char_between(s, z + 3, '0', '5') && char_between(s, z + 4, '0', '9'))
}

/// The day-first part of a mail-style date: day, month, four-digit year from
/// 1900 on, hour and minute with optional seconds, and a zone, starting at
/// `a`.
pub open spec fn rfc_rest_at(s: Seq<char>, a: int) -> bool {
    let d = run_end(s, a, CharClass::Digit);
    (d - a == 1 || (d - a == 2 && day2_ok(s, a))) && run_end(s, d, CharClass::Space) > d && {
        let b = run_end(s, d, CharClass::Space);
        month_at(s, b) && run_end(s, b + 3, CharClass::Space) > b + 3 && {
            let c = run_end(s, b + 3, CharClass::Space);
            ((char_at(s, c, '1') && char_at(s, c + 1, '9') && char_between(s, c + 2, '0', '9')
                && char_between(s, c + 3, '0', '9')) || (char_between(s, c, '2', '9')
                && char_between(s, c + 1, '0', '9') && char_between(s, c + 2, '0', '9')
                && char_between(s, c + 3, '0', '9'))) && run_end(s, c + 4, CharClass::Space) > c + 4
                && {
                let t = run_end(s, c + 4, CharClass::Space);
                ((char_at(s, t, '2') && char_between(s, t + 1, '0', '3')) || (char_between(
                    s, t, '0', '1') && char_between(s, t + 1, '0', '9'))) && char_at(s, t + 2, ':')
                    && char_between(s, t + 3, '0', '5') && char_between(s, t + 4, '0', '9') && {
                    let u = if char_at(s, t + 5, ':') && ((char_at(s, t + 6, '6') && char_at(
                        s, t + 7, '0')) || (char_between(s, t + 6, '0', '5') && char_between(
                        s, t + 7, '0', '9'))) {
                        t + 8
                    } else {
                        t + 5
                    };
                    run_end(s, u, CharClass::Space) > u && zone_ok(
                        s, run_end(s, u, CharClass::Space))
                }
            }
        }
    }
}

/// A mail-style date stands at `j`: an optional weekday with a comma, then
/// the day-first rest, at a word boundary.
pub open spec fn rfc_at(s: Seq<char>, j: int) -> bool {
    boundary_before(s, j) && ((weekday_at(s, j) && char_at(s, j + 3, ',') && run_end(
        s, j + 4, CharClass::Space) > j + 4 && rfc_rest_at(s, run_end(s, j + 4, CharClass::Space)))
        || rfc_rest_at(s, j))
}

/// A date or timestamp in one of the recognized formats stands at `j`.
pub open spec fn tx_date_token_at(s: Seq<char>, j: int) -> bool {
    iso_at(s, j) || asctime_at(s, j) || rfc_at(s, j)
}

/// The digit-run rule applies between `q` and `e`: scanning from `q`, two
/// consecutive digits are reachable, stepping over single characters and
/// two-digit percent escapes; a stray percent sign stops the scan.
pub open spec fn int_scan_ok(s: Seq<char>, q: int, e: int) -> bool
    decreases e - q when 0 <= q && q <= e <= s.len()
{
    if q >= e {
        false
    } else if is_digit(s[q]) && q + 1 < e && is_digit(s[q + 1]) {
        true
    } else if s[q] == '%' {
        if q + 2 < e && is_hex(s[q + 1]) && is_hex(s[q + 2]) {
            int_scan_ok(s, q + 3, e)
        } else {
            false
        }
    } else {
        int_scan_ok(s, q + 1, e)
    }
}

/// Decides `int_scan_ok`.
#[verifier::loop_isolation(false)]
pub fn int_scan_exec(s: &Vec<char>, q: usize, e: usize) -> (r: bool)
    requires
        q <= e <= s@.len(),
    ensures
        r == int_scan_ok(s@, q as int, e as int),
{
    let sn = s.len();
    assert(sn == s@.len());
    let mut cur = q;
    loop
        invariant
            q <= cur <= e,
            int_scan_ok(s@, q as int, e as int) == int_scan_ok(s@, cur as int, e as int),
        decreases e - cur,
    {
        if cur >= e {
            return false;
        }
        if '0' <= s[cur] && s[cur] <= '9' && cur + 1 < e && '0' <= s[cur + 1] && s[cur + 1] <= '9' {
            return true;
        }
        if s[cur] == '%' {
            if e - cur > 2 && crate::chars::class_test(CharClass::Hex, s[cur + 1])
                && crate::chars::class_test(CharClass::Hex, s[cur + 2]) {
                cur = cur + 3;
            } else {
                return false;
            }
        } else {
            cur = cur + 1;
        }
    }
}

/// Decides `tx_uuid_token_at`.
pub fn check_tx_uuid(s: &Vec<char>, j: usize) -> (r: bool)
    requires
        j <= s@.len(),
    ensures
        r == tx_uuid_token_at(s@, j as int),
{
    let sn = s.len();
    assert(sn == s@.len());
    check_boundary_before(s, j) && check_uuid_core(s, j) && check_boundary_after(s, j + 36)
}

/// Decides `tx_hexn_token_at`.
pub fn check_tx_hexn(s: &Vec<char>, j: usize, n: usize) -> (r: bool)
    requires
        j <= s@.len(),
    ensures
        r == tx_hexn_token_at(s@, j as int, n as int),
{
    let sn = s.len();
    assert(sn == s@.len());
    check_boundary_before(s, j) && check_span(s, j, n, CharClass::Hex) && check_boundary_after(
        s, j + n)
}

/// Decides `tx_hexlit_token_at`.
pub fn check_tx_hexlit(s: &Vec<char>, j: usize) -> (r: bool)
    requires
        j <= s@.len(),
    ensures
        r == tx_hexlit_token_at(s@, j as int),
{
    let sn = s.len();
    assert(sn == s@.len());
    if check_boundary_before(s, j) && check_char(s, j, '0') && (check_char(s, j + 1, 'x')
        || check_char(s, j + 1, 'X')) {
        let h = class_run_end(s, j + 2, CharClass::Hex);
        h > j + 2 && check_boundary_after(s, h)
    } else {
        false
    }
}

/// Decides `iso_at`.
pub fn check_iso(s: &Vec<char>, j: usize) -> (r: bool)
    requires
        j <= s@.len(),
    ensures
        r == iso_at(s@, j as int),
{
    let sn = s.len();
    assert(sn == s@.len());
    if !(check_span(s, j, 4, CharClass::Digit) && check_char(s, j + 4, '-') && check_between(
        s, j + 5, '0', '1') && check_between(s, j + 6, '0', '9') && check_char(s, j + 7, '-')
        && check_between(s, j + 8, '0', '3') && check_between(s, j + 9, '0', '9') && check_char(
        s, j + 10, 'T') && check_between(s, j + 11, '0', '2') && check_between(s, j + 12, '0', '9')
        && check_char(s, j + 13, ':') && check_between(s, j + 14, '0', '5') && check_between(
        s, j + 15, '0', '9')) {
        return false;
    }
    if check_char(s, j + 16, ':') && check_between(s, j + 17, '0', '5') && check_between(
        s, j + 18, '0', '9') {
        if check_char(s, j + 19, '.') {
            let f = class_run_end(s, j + 20, CharClass::Digit);
            if f > j + 20 && check_iso_tz(s, f) {
                return true;
            }
        }
        if check_iso_tz(s, j + 19) {
            return true;
        }
    }
    check_iso_tz(s, j + 16)
}

/// Decides `iso_tz_at`.
pub fn check_iso_tz(s: &Vec<char>, k: usize) -> (r: bool)
    ensures
        r == iso_tz_at(s@, k as int),
{
    let sn = s.len();
    assert(sn == s@.len());
    check_char(s, k, 'Z') || ((check_char(s, k, '+') || check_char(s, k, '-')) && check_between(
        s, k + 1, '0', '2') && check_between(s, k + 2, '0', '9') && check_char(s, k + 3, ':')
        && check_between(s, k + 4, '0', '5') && check_between(s, k + 5, '0', '9'))
}

/// Decides `weekday_at`.
pub fn check_weekday(s: &Vec<char>, j: usize) -> (r: bool)
    ensures
        r == weekday_at(s@, j as int),
{
    let sn = s.len();
    assert(sn == s@.len());
    (check_char(s, j, 'S') && check_char(s, j + 1, 'u') && check_char(s, j + 2, 'n')) || (
    check_char(s, j, 'M') && check_char(s, j + 1, 'o') && check_char(s, j + 2, 'n')) || (
    check_char(s, j, 'T') && check_char(s, j + 1, 'u') && check_char(s, j + 2, 'e')) || (
    check_char(s, j, 'W') && check_char(s, j + 1, 'e') && check_char(s, j + 2, 'd')) || (
    check_char(s, j, 'T') && check_char(s, j + 1, 'h') && check_char(s, j + 2, 'u')) || (
    check_char(s, j, 'F') && check_char(s, j + 1, 'r') && check_char(s, j + 2, 'i')) || (
    check_char(s, j, 'S') && check_char(s, j + 1, 'a') && check_char(s, j + 2, 't'))
}

/// Decides `month_at`.
pub fn check_month(s: &Vec<char>, j: usize) -> (r: bool)
    ensures
        r == month_at(s@, j as int),
{
    let sn = s.len();
    assert(sn == s@.len());
    (check_char(s, j, 'J') && check_char(s, j + 1, 'a') && check_char(s, j + 2, 'n')) || (
    check_char(s, j, 'F') && check_char(s, j + 1, 'e') && check_char(s, j + 2, 'b')) || (
    check_char(s, j, 'M') && check_char(s, j + 1, 'a') && check_char(s, j + 2, 'r')) || (
    check_char(s, j, 'A') && check_char(s, j + 1, 'p') && check_char(s, j + 2, 'r')) || (
    check_char(s, j, 'M') && check_char(s, j + 1, 'a') && check_char(s, j + 2, 'y')) || (
    check_char(s, j, 'J') && check_char(s, j + 1, 'u') && check_char(s, j + 2, 'n')) || (
    check_char(s, j, 'J') && check_char(s, j + 1, 'u') && check_char(s, j + 2, 'l')) || (
    check_char(s, j, 'A') && check_char(s, j + 1, 'u') && check_char(s, j + 2, 'g')) || (
    check_char(s, j, 'S') && check_char(s, j + 1, 'e') && check_char(s, j + 2, 'p')) || (
    check_char(s, j, 'O') && check_char(s, j + 1, 'c') && check_char(s, j + 2, 't')) || (
    check_char(s, j, 'N') && check_char(s, j + 1, 'o') && check_char(s, j + 2, 'v')) || (
    check_char(s, j, 'D') && check_char(s, j + 1, 'e') && check_char(s, j + 2, 'c'))
}

/// Decides `asctime_rest_at`.
pub fn check_asctime_rest(s: &Vec<char>, m: usize) -> (r: bool)
    requires
        m <= s@.len(),
    ensures
        r == asctime_rest_at(s@, m as int),
{
    let sn = s.len();
    assert(sn == s@.len());
    if !check_month(s, m) {
        return false;
    }
    let a = class_run_end(s, m + 3, CharClass::Space);
    if a == m + 3 {
        return false;
    }
    let d = class_run_end(s, a, CharClass::Digit);
    if d - a < 1 || d - a > 2 {
        return false;
    }
    let b = class_run_end(s, d, CharClass::Space);
    if b == d {
        return false;
    }
    if !(check_between(s, b, '0', '9') && check_between(s, b + 1, '0', '9') && check_char(
        s, b + 2, ':') && check_between(s, b + 3, '0', '9') && check_between(s, b + 4, '0', '9')
        && check_char(s, b + 5, ':') && check_between(s, b + 6, '0', '9') && check_between(
        s, b + 7, '0', '9')) {
        return false;
    }
    let c = class_run_end(s, b + 8, CharClass::Space);
    c > b + 8 && check_span(s, c, 4, CharClass::Digit)
}

/// Decides `asctime_at`.
pub fn check_asctime(s: &Vec<char>, j: usize) -> (r: bool)
    requires
        j <= s@.len(),
    ensures
        r == asctime_at(s@, j as int),
{
    let sn = s.len();
    assert(sn == s@.len());
    if !check_boundary_before(s, j) {
        return false;
    }
    if check_weekday(s, j) {
        let a = class_run_end(s, j + 3, CharClass::Space);
        if a > j + 3 && check_asctime_rest(s, a) {
            return true;
        }
    }
    check_asctime_rest(s, j)
}

/// Decides `rfc_rest_at`.
pub fn check_rfc_rest(s: &Vec<char>, a: usize) -> (r: bool)
    requires
        a <= s@.len(),
    ensures
        r == rfc_rest_at(s@, a as int),
{
    let sn = s.len();
    assert(sn == s@.len());
    let d = class_run_end(s, a, CharClass::Digit);
    let day_ok = d - a == 1 || (d - a == 2 && ((check_char(s, a, '0') && check_between(
        s, a + 1, '1', '9')) || (check_between(s, a, '1', '2') && check_between(s, a + 1, '0', '9'))
        || (check_char(s, a, '3') && check_between(s, a + 1, '0', '1'))));
    if !day_ok {
        return false;
    }
    let b = class_run_end(s, d, CharClass::Space);
    if b == d || !check_month(s, b) {
        return false;
    }
    let c = class_run_end(s, b + 3, CharClass::Space);
    if c == b + 3 {
        return false;
    }
    let year_ok = (check_char(s, c, '1') && check_char(s, c + 1, '9') && check_between(
        s, c + 2, '0', '9') && check_between(s, c + 3, '0', '9')) || (check_between(s, c, '2', '9')
        && check_between(s, c + 1, '0', '9') && check_between(s, c + 2, '0', '9') && check_between(
        s, c + 3, '0', '9'));
    if !year_ok {
        return false;
    }
    let t = class_run_end(s, c + 4, CharClass::Space);
    if t == c + 4 {
        return false;
    }
    let hour_ok = (check_char(s, t, '2') && check_between(s, t + 1, '0', '3')) || (check_between(
        s, t, '0', '1') && check_between(s, t + 1, '0', '9'));
    if !(hour_ok && check_char(s, t + 2, ':') && check_between(s, t + 3, '0', '5')
        && check_between(s, t + 4, '0', '9')) {
        return false;
    }
    let u = if check_char(s, t + 5, ':') && ((check_char(s, t + 6, '6') && check_char(
        s, t + 7, '0')) || (check_between(s, t + 6, '0', '5') && check_between(
        s, t + 7, '0', '9'))) {
        t + 8
    } else {
        t + 5
    };
    let z = class_run_end(s, u, CharClass::Space);
    if z == u {
        return false;
    }
    (z < s.len() && 'A' <= s[z] && s[z] <= 'Z' && s[z] != 'J') || ((check_char(s, z, '+')
        || check_char(s, z, '-')) && check_between(s, z + 1, '0', '9') && check_between(
        s, z + 2, '0', '9') && check_between(s, z + 3, '0', '5') && check_between(
        s, z + 4, '0', '9'))
}

/// Decides `rfc_at`.
pub fn check_rfc(s: &Vec<char>, j: usize) -> (r: bool)
    requires
        j <= s@.len(),
    ensures
        r == rfc_at(s@, j as int),
{
    let sn = s.len();
    assert(sn == s@.len());
    if !check_boundary_before(s, j) {
        return false;
    }
    if check_weekday(s, j) && check_char(s, j + 3, ',') {
        let a = class_run_end(s, j + 4, CharClass::Space);
        if a > j + 4 && check_rfc_rest(s, a) {
            return true;
        }
    }
    check_rfc_rest(s, j)
}

/// Decides `tx_date_token_at`.
pub fn check_tx_date(s: &Vec<char>, j: usize) -> (r: bool)
    requires
        j <= s@.len(),
    ensures
        r == tx_date_token_at(s@, j as int),
{
    check_iso(s, j) || check_asctime(s, j) || check_rfc(s, j)
}

/// Some position of `[p, e)` carries an identifier token.
pub open spec fn tx_uuid_in(s: Seq<char>, p: int, e: int) -> bool {
    exists|j: int| p <= j < e && tx_uuid_token_at(s, j)
}

/// Some position of `[p, e)` carries a digest of `n` hexadecimal digits.
pub open spec fn tx_hexn_in(s: Seq<char>, p: int, e: int, n: int) -> bool {
    exists|j: int| p <= j < e && tx_hexn_token_at(s, j, n)
}

/// Some position of `[p, e)` carries a date token.
pub open spec fn tx_date_in(s: Seq<char>, p: int, e: int) -> bool {
    exists|j: int| p <= j < e && tx_date_token_at(s, j)
}

/// Some position of `[p, e)` carries a hexadecimal-literal token.
pub open spec fn tx_hexlit_in(s: Seq<char>, p: int, e: int) -> bool {
    exists|j: int| p <= j < e && tx_hexlit_token_at(s, j)
}

/// Decides `tx_uuid_in`.
#[verifier::loop_isolation(false)]
pub fn find_tx_uuid(s: &Vec<char>, p: usize, e: usize) -> (r: bool)
    requires
        p <= e <= s@.len(),
    ensures
        r == tx_uuid_in(s@, p as int, e as int),
{
    let mut j = p;
    while j < e
        invariant
            p <= j <= e,
            forall|k: int| p <= k < j ==> !tx_uuid_token_at(s@, k),
        decreases e - j,
    {
        if check_tx_uuid(s, j) {
            return true;
        }
        j = j + 1;
    }
    false
}

/// Decides `tx_hexn_in`.
#[verifier::loop_isolation(false)]
pub fn find_tx_hexn(s: &Vec<char>, p: usize, e: usize, n: usize) -> (r: bool)
    requires
        p <= e <= s@.len(),
    ensures
        r == tx_hexn_in(s@, p as int, e as int, n as int),
{
    let mut j = p;
    while j < e
        invariant
            p <= j <= e,
            forall|k: int| p <= k < j ==> !tx_hexn_token_at(s@, k, n as int),
        decreases e - j,
    {
        if check_tx_hexn(s, j, n) {
            return true;
        }
        j = j + 1;
    }
    false
}

/// Decides `tx_date_in`.
#[verifier::loop_isolation(false)]
pub fn find_tx_date(s: &Vec<char>, p: usize, e: usize) -> (r: bool)
    requires
        p <= e <= s@.len(),
    ensures
        r == tx_date_in(s@, p as int, e as int),
{
    let mut j = p;
    while j < e
        invariant
            p <= j <= e,
            forall|k: int| p <= k < j ==> !tx_date_token_at(s@, k),
        decreases e - j,
    {
        if check_tx_date(s, j) {
            return true;
        }
        j = j + 1;
    }
    false
}

/// Decides `tx_hexlit_in`.
#[verifier::loop_isolation(false)]
pub fn find_tx_hexlit(s: &Vec<char>, p: usize, e: usize) -> (r: bool)
    requires
        p <= e <= s@.len(),
    ensures
        r == tx_hexlit_in(s@, p as int, e as int),
{
    let mut j = p;
    while j < e
        invariant
            p <= j <= e,
            forall|k: int| p <= k < j ==> !tx_hexlit_token_at(s@, k),
        decreases e - j,
    {
        if check_tx_hexlit(s, j) {
            return true;
        }
        j = j + 1;
    }
    false
}

/// The transaction rule, evaluated at position `p`. At a path separator only
/// the digit-run rule can apply, to the following segment; elsewhere the
/// token rules apply in declaration order to the segment from `p` on, and the
/// digit-run rule also applies at the very start of the text. A match always
/// consumes through the end of the segment.
pub open spec fn tx_match_at(s: Seq<char>, p: int) -> Option<MatchS>
    recommends 0 <= p < s.len(),
{
    if is_path_sep(s[p]) {
        let ge = run_end(s, p + 1, CharClass::NotPathSep);
        if p + 1 <= s.len() && int_scan_ok(s, p + 1, ge) {
            Some(MatchS { kind: Kind::IntSegment, end: ge, gs: p + 1, ge: ge })
        } else {
            None
        }
    } else {
        let e = run_end(s, p, CharClass::NotPathSep);
        if tx_uuid_in(s, p, e) {
            Some(MatchS { kind: Kind::Uuid, end: e, gs: p, ge: e })
        } else if tx_hexn_in(s, p, e, 40) {
            Some(MatchS { kind: Kind::Sha1, end: e, gs: p, ge: e })
        } else if tx_hexn_in(s, p, e, 32) {
            Some(MatchS { kind: Kind::Md5, end: e, gs: p, ge: e })
        } else if tx_date_in(s, p, e) {
            Some(MatchS { kind: Kind::Date, end: e, gs: p, ge: e })
        } else if tx_hexlit_in(s, p, e) {
            Some(MatchS { kind: Kind::HexLiteral, end: e, gs: p, ge: e })
        } else if p == 0 && int_scan_ok(s, 0, e) {
            Some(MatchS { kind: Kind::IntSegment, end: e, gs: 0, ge: e })
        } else {
            None
        }
    }
}

/// The transaction rule at position `p`, computed at runtime.
pub fn tx_match(s: &Vec<char>, p: usize) -> (r: Option<ExecMatch>)
    requires
        p < s@.len(),
    ensures
        match_corresponds(r, tx_match_at(s@, p as int)),
        r is Some ==> wf_match(s@, p as int, r->Some_0@),
{
    let sn = s.len();
    assert(sn == s@.len());
    if s[p] == '/' || s[p] == '\\' {
        let ge = class_run_end(s, p + 1, CharClass::NotPathSep);
        if int_scan_exec(s, p + 1, ge) {
            return Some(ExecMatch { kind: Kind::IntSegment, end: ge, gs: p + 1, ge: ge });
        }
        return None;
    }
    let e = class_run_end(s, p, CharClass::NotPathSep);
    assert(e > p) by {
        lemma_run_end(s@, p as int, CharClass::NotPathSep);
        assert(in_class(CharClass::NotPathSep, s@[p as int]));
    }
    if find_tx_uuid(s, p, e) {
        return Some(ExecMatch { kind: Kind::Uuid, end: e, gs: p, ge: e });
    }
    if find_tx_hexn(s, p, e, 40) {
        return Some(ExecMatch { kind: Kind::Sha1, end: e, gs: p, ge: e });
    }
    if find_tx_hexn(s, p, e, 32) {
        return Some(ExecMatch { kind: Kind::Md5, end: e, gs: p, ge: e });
    }
    if find_tx_date(s, p, e) {
        return Some(ExecMatch { kind: Kind::Date, end: e, gs: p, ge: e });
    }
    if find_tx_hexlit(s, p, e) {
        return Some(ExecMatch { kind: Kind::HexLiteral, end: e, gs: p, ge: e });
    }
    if p == 0 && int_scan_exec(s, 0, e) {
        return Some(ExecMatch { kind: Kind::IntSegment, end: e, gs: 0, ge: e });
    }
    None
}

} // verus!
