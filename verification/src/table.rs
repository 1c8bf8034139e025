//! The model-name table: a read-only mapping from hardware model codes to
//! marketing names, built once from a bundled tabular dataset with a header
//! row. A malformed header degrades to an empty table; short rows are
//! skipped; every key and value is trimmed.

use vstd::prelude::*;
use crate::chars::CharClass;
use crate::scan::run_end;
use crate::text::{str_chars, chars_string, trim_chars, trim_spec, chars_eq, copy_range};

verus! {

/// The pieces of `s` from `start` on, split at every character outside the
/// class `keep`; separators are dropped, empty pieces kept.
pub open spec fn split_from(s: Seq<char>, start: int, keep: CharClass) -> Seq<Seq<char>>
    decreases s.len() - start when 0 <= start <= s.len()
{
    let e = run_end(s, start, keep);
    if start <= e < s.len() {
        seq![s.subrange(start, e)] + split_from(s, e + 1, keep)
    } else {
        seq![s.subrange(start, s.len() as int)]
    }
}

/// The pieces of `s`, split at every character outside the class `keep`.
pub open spec fn split_by(s: Seq<char>, keep: CharClass) -> Seq<Seq<char>> {
    split_from(s, 0, keep)
}

/// The views of a sequence of character vectors.
pub open spec fn views_of(rs: Seq<Vec<char>>) -> Seq<Seq<char>> {
    rs.map_values(|x: Vec<char>| x@)
}

/// Splits the characters of `v` at every character outside `keep`.
#[verifier::loop_isolation(false)]
pub fn split_chars(v: &Vec<char>, keep: CharClass) -> (r: Vec<Vec<char>>)
    ensures
        views_of(r@) == split_by(v@, keep),
{
    let sn = v.len();
    let mut r: Vec<Vec<char>> = Vec::new();
    let mut start: usize = 0;
    loop
        invariant
            start <= v@.len(),
            split_by(v@, keep) =~= views_of(r@) + split_from(v@, start as int, keep),
        decreases v@.len() - start,
    {
        let e = crate::scan::class_run_end(v, start, keep);
        let piece = copy_range(v, start, e);
        if e < v.len() {
            r.push(piece);
            assert(views_of(r@) =~= views_of(r@.drop_last()).push(v@.subrange(
                start as int, e as int)));
            start = e + 1;
        } else {
            assert(piece@ == v@.subrange(start as int, v@.len() as int));
            r.push(piece);
            assert(views_of(r@) =~= views_of(r@.drop_last()).push(v@.subrange(
                start as int, v@.len() as int)));
            assert(views_of(r@) =~= split_by(v@, keep));
            return r;
        }
    }
}

/// A line with a trailing carriage return removed.
pub open spec fn strip_cr(l: Seq<char>) -> Seq<char> {
    if l.len() > 0 && l.last() == '\r' {
        l.drop_last()
    } else {
        l
    }
}

/// The lines of the dataset text: pieces split at newlines, without a final
/// empty piece, each with a trailing carriage return removed.
pub open spec fn csv_lines(text: Seq<char>) -> Seq<Seq<char>> {
    let ps = split_by(text, CharClass::NotNewline);
    let ps2 = if ps.len() > 0 && ps.last().len() == 0 {
        ps.drop_last()
    } else {
        ps
    };
    ps2.map_values(|l: Seq<char>| strip_cr(l))
}

/// The comma-separated fields of one line.
pub open spec fn fields_of(line: Seq<char>) -> Seq<Seq<char>> {
    split_by(line, CharClass::NotComma)
}

/// The first field from `k` on whose trimmed text equals `name`.
pub open spec fn find_from(fields: Seq<Seq<char>>, k: int, name: Seq<char>) -> Option<int>
    decreases fields.len() - k when 0 <= k <= fields.len()
{
    if k >= fields.len() {
        None
    } else if trim_spec(fields[k]) == name {
        Some(k)
    } else {
        find_from(fields, k + 1, name)
    }
}

/// One table row taken from a data line: the trimmed model and marketing
/// name, or nothing when the line has too few fields to cover both columns.
pub open spec fn row_entry(line: Seq<char>, mi: int, pi: int) -> Option<(Seq<char>, Seq<char>)> {
    let fs = fields_of(line);
    if fs.len() > mi && fs.len() > pi {
        Some((trim_spec(fs[mi]), trim_spec(fs[pi])))
    } else {
        None
    }
}

/// The rows taken from the data lines from `i` on.
pub open spec fn rows_from(ls: Seq<Seq<char>>, i: int, mi: int, pi: int) -> Seq<
    (Seq<char>, Seq<char>),
>
    decreases ls.len() - i when 0 <= i <= ls.len()
{
    if i >= ls.len() {
        Seq::empty()
    } else {
        match row_entry(ls[i], mi, pi) {
            Some(rw) => seq![rw] + rows_from(ls, i + 1, mi, pi),
            None => rows_from(ls, i + 1, mi, pi),
        }
    }
}

/// The rows of the table built from the dataset text: empty unless the
/// header line names both required columns, found by header text rather than
/// by position.
pub open spec fn table_rows(text: Seq<char>) -> Seq<(Seq<char>, Seq<char>)> {
    let ls = csv_lines(text);
    if ls.len() == 0 {
        Seq::empty()
    } else {
        let mi = find_from(fields_of(ls[0]), 0, "Model"@);
        let pi = find_from(fields_of(ls[0]), 0, "Marketing Name"@);
        if mi is Some && pi is Some {
            rows_from(ls, 1, mi->Some_0, pi->Some_0)
        } else {
            Seq::empty()
        }
    }
}

/// The views of the stored rows.
pub open spec fn rows_views(rs: Seq<(String, String)>) -> Seq<(Seq<char>, Seq<char>)> {
    rs.map_values(|p: (String, String)| (p.0@, p.1@))
}

/// The marketing name of the last row whose model code equals `key`.
pub open spec fn lookup_spec(rows: Seq<(Seq<char>, Seq<char>)>, key: Seq<char>) -> Option<
    Seq<char>,
>
    decreases rows.len()
{
    if rows.len() == 0 {
        None
    } else if rows.last().0 == key {
        Some(rows.last().1)
    } else {
        lookup_spec(rows.drop_last(), key)
    }
}

/// The read-only mapping from hardware model codes to marketing names.
pub struct ModelNameTable {
    pub rows: Vec<(String, String)>,
}

impl ModelNameTable {
    /// Builds the table from the dataset text. Total: a text without both
    /// required headers, the empty text included, yields an empty table
    /// rather than an error.
    #[verifier::loop_isolation(false)]
    #[verifier::rlimit(60)]
    pub fn from_csv(text: &str) -> (r: ModelNameTable)
        ensures
            rows_views(r.rows@) == table_rows(text@),
    {
        let v = str_chars(text);
        let pieces = split_chars(&v, CharClass::NotNewline);
        let np = if pieces.len() > 0 && pieces[pieces.len() - 1].len() == 0 {
            pieces.len() - 1
        } else {
            pieces.len()
        };
        let mut lines: Vec<Vec<char>> = Vec::new();
        let mut i: usize = 0;
        while i < np
            invariant
                i <= np <= pieces@.len(),
                views_of(lines@) =~= csv_lines(v@).subrange(0, i as int),
                csv_lines(v@).len() == np,
            decreases np - i,
        {
            let p = &pieces[i];
            let stripped = if p.len() > 0 && p[p.len() - 1] == '\r' {
                copy_range(p, 0, p.len() - 1)
            } else {
                copy_range(p, 0, p.len())
            };
            assert(stripped@ == strip_cr(pieces@[i as int]@));
            lines.push(stripped);
            assert(views_of(lines@) =~= csv_lines(v@).subrange(0, i + 1 as int));
            i = i + 1;
        }
        assert(views_of(lines@) =~= csv_lines(v@));
        if lines.len() == 0 {
            return ModelNameTable { rows: Vec::new() };
        }
        let hfields = split_chars(&lines[0], CharClass::NotComma);
        let mi = match find_header(&hfields, "Model") {
            Some(k) => k,
            None => {
                return ModelNameTable { rows: Vec::new() };
            }
        };
        let pi = match find_header(&hfields, "Marketing Name") {
            Some(k) => k,
            None => {
                return ModelNameTable { rows: Vec::new() };
            }
        };
        let mut rows: Vec<(String, String)> = Vec::new();
        let mut j: usize = 1;
        while j < lines.len()
            invariant
                1 <= j <= lines@.len(),
                rows_from(views_of(lines@), 1, mi as int, pi as int) =~= rows_views(rows@)
                    + rows_from(views_of(lines@), j as int, mi as int, pi as int),
            decreases lines@.len() - j,
        {
            let fields = split_chars(&lines[j], CharClass::NotComma);
            let need = if mi > pi {
                mi
            } else {
                pi
            };
            if fields.len() > need {
                let mkey = chars_string(&trim_chars(&fields[mi]));
                let mval = chars_string(&trim_chars(&fields[pi]));
                rows.push((mkey, mval));
                assert(rows_views(rows@) =~= rows_views(rows@.drop_last()).push(
                    row_entry(views_of(lines@)[j as int], mi as int, pi as int)->Some_0));
            } else {
                assert(row_entry(views_of(lines@)[j as int], mi as int, pi as int) is None);
            }
            j = j + 1;
        }
        assert(rows_from(views_of(lines@), lines@.len() as int, mi as int, pi as int)
            =~= Seq::<(Seq<char>, Seq<char>)>::empty());
        assert(rows_views(rows@) =~= rows_from(views_of(lines@), 1, mi as int, pi as int));
        ModelNameTable { rows }
    }

    /// Looks up the marketing name of a model code; an exact match on the
    /// trimmed code as stored, the last matching row winning.
    #[verifier::loop_isolation(false)]
    pub fn lookup(&self, model_code: &str) -> (r: Option<String>)
        ensures
            crate::device::opt_view(r) == lookup_spec(rows_views(self.rows@), model_code@),
    {
        let key = str_chars(model_code);
        let mut i = self.rows.len();
        assert(self.rows@.subrange(0, self.rows@.len() as int) =~= self.rows@);
        loop
            invariant
                i <= self.rows@.len(),
                lookup_spec(rows_views(self.rows@), model_code@) == lookup_spec(
                    rows_views(self.rows@.subrange(0, i as int)),
                    model_code@,
                ),
            decreases i,
        {
            if i == 0 {
                return None;
            }
            i = i - 1;
            let rk = str_chars(self.rows[i].0.as_str());
            assert(rows_views(self.rows@.subrange(0, i + 1 as int)).drop_last() =~= rows_views(
                self.rows@.subrange(0, i as int)));
            assert(rows_views(self.rows@.subrange(0, i + 1 as int)).last() == (
            self.rows@[i as int].0@,
            self.rows@[i as int].1@,
            ));
            if chars_eq(&rk, &key) {
                return Some(crate::device::clone_string(&self.rows[i].1));
            }
        }
    }
}

/// The first header field whose trimmed text equals `name`.
#[verifier::loop_isolation(false)]
fn find_header(hfields: &Vec<Vec<char>>, name: &str) -> (r: Option<usize>)
    ensures
        match r {
            Some(k) => find_from(views_of(hfields@), 0, name@) == Some(k as int) && k
                < hfields@.len(),
            None => find_from(views_of(hfields@), 0, name@) is None,
        },
{
    let target = str_chars(name);
    let mut k: usize = 0;
    loop
        invariant
            k <= hfields@.len(),
            find_from(views_of(hfields@), 0, name@) == find_from(
                views_of(hfields@),
                k as int,
                name@,
            ),
        decreases hfields@.len() - k,
    {
        if k >= hfields.len() {
            return None;
        }
        let t = trim_chars(&hfields[k]);
        if chars_eq(&t, &target) {
            return Some(k);
        }
        k = k + 1;
    }
}

} // verus!
