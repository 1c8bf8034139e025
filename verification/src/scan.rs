//! Scanning primitives: maximal runs of a character class, fixed spans and
//! word boundaries over a sequence of characters.

use vstd::prelude::*;
use crate::chars::{CharClass, in_class, is_word, class_test};

verus! {

/// End of the maximal run of characters of class `cls` that starts at `i`.
pub open spec fn run_end(s: Seq<char>, i: int, cls: CharClass) -> int
    decreases s.len() - i when 0 <= i <= s.len()
{
    if i < s.len() && in_class(cls, s[i]) {
        run_end(s, i + 1, cls)
    } else {
        i
    }
}

/// A maximal run stays inside the sequence, consists of class members, and is
/// not followed by another class member.
pub proof fn lemma_run_end(s: Seq<char>, i: int, cls: CharClass)
    requires
        0 <= i <= s.len(),
    ensures
        i <= run_end(s, i, cls) <= s.len(),
        forall|k: int| i <= k < run_end(s, i, cls) ==> in_class(cls, s[k]),
        run_end(s, i, cls) < s.len() ==> !in_class(cls, s[run_end(s, i, cls)]),
    decreases s.len() - i,
{
    if i < s.len() && in_class(cls, s[i]) {
        lemma_run_end(s, i + 1, cls);
    }
}

/// Computes `run_end`.
pub fn class_run_end(s: &Vec<char>, i: usize, cls: CharClass) -> (r: usize)
    requires
        i <= s@.len(),
    ensures
        r == run_end(s@, i as int, cls),
        i <= r <= s@.len(),
    decreases s@.len() - i,
{
    let mut j = i;
    while j < s.len() && class_test(cls, s[j])
        invariant
            i <= j <= s@.len(),
            run_end(s@, i as int, cls) == run_end(s@, j as int, cls),
        decreases s@.len() - j,
    {
        j = j + 1;
    }
    j
}

/// All of the `n` characters from `i` belong to class `cls`.
pub open spec fn class_span(s: Seq<char>, i: int, n: int, cls: CharClass) -> bool {
    0 <= i && i + n <= s.len() && forall|k: int| i <= k < i + n ==> in_class(cls, s[k])
}

/// Decides `class_span`.
pub fn check_span(s: &Vec<char>, i: usize, n: usize, cls: CharClass) -> (r: bool)
    requires
        i <= s@.len(),
    ensures
        r == class_span(s@, i as int, n as int, cls),
{
    if n > s.len() - i {
        return false;
    }
    let end = i + n;
    let mut k = i;
    while k < end
        invariant
            i <= k <= end,
            end == i + n <= s@.len(),
            forall|t: int| i <= t < k ==> in_class(cls, s@[t]),
        decreases i + n - k,
    {
        if !class_test(cls, s[k]) {
            return false;
        }
        k = k + 1;
    }
    true
}

/// A word boundary lies just before position `i`: the position is at the start
/// of the text or the preceding character is not a word character.
pub open spec fn boundary_before(s: Seq<char>, i: int) -> bool {
    i == 0 || !is_word(s[i - 1])
}

/// A word boundary lies just after position `i - 1`: the position is at the
/// end of the text or the character at `i` is not a word character.
pub open spec fn boundary_after(s: Seq<char>, i: int) -> bool {
    i == s.len() || !is_word(s[i])
}

/// Decides `boundary_before`.
pub fn check_boundary_before(s: &Vec<char>, i: usize) -> (r: bool)
    requires
        i <= s@.len(),
    ensures
        r == boundary_before(s@, i as int),
{
    i == 0 || !class_test(CharClass::Word, s[i - 1])
}

/// Decides `boundary_after`.
pub fn check_boundary_after(s: &Vec<char>, i: usize) -> (r: bool)
    requires
        i <= s@.len(),
    ensures
        r == boundary_after(s@, i as int),
{
    i == s.len() || !class_test(CharClass::Word, s[i])
}

/// The character at `i`, if any, equals `c`.
pub open spec fn char_at(s: Seq<char>, i: int, c: char) -> bool {
    0 <= i < s.len() && s[i] == c
}

/// Decides `char_at`.
pub fn check_char(s: &Vec<char>, i: usize, c: char) -> (r: bool)
    ensures
        r == char_at(s@, i as int, c),
{
    i < s.len() && s[i] == c
}

/// The character at `i`, if any, lies between `lo` and `hi` inclusive.
pub open spec fn char_between(s: Seq<char>, i: int, lo: char, hi: char) -> bool {
    0 <= i < s.len() && lo <= s[i] && s[i] <= hi
}

/// Decides `char_between`.
pub fn check_between(s: &Vec<char>, i: usize, lo: char, hi: char) -> (r: bool)
    ensures
        r == char_between(s@, i as int, lo, hi),
{
    i < s.len() && lo <= s[i] && s[i] <= hi
}

} // verus!
