//! Diagonal union semantics.
//!
//! When files carry heterogeneous physical schemas, the union step matches
//! columns by name, not by position: the unioned column set is the union of
//! the per-file column sets in first-occurrence order, and a row coming from
//! a file that lacks one of those columns carries null there.

use vstd::prelude::*;
use crate::schema::{ColumnDef, has_name, unique_names, schema_has_name};

verus! {

/// One evaluated cell of a row; columns a file does not hold are null.
#[derive(Debug)]
pub enum CellValue {
    Null,
    Bool(bool),
    Int(i64),
    Text(String),
}

impl CellValue {
    /// An equal copy of this cell.
    pub fn duplicate(&self) -> (r: CellValue)
        ensures
            r == *self,
    {
        match self {
            CellValue::Null => CellValue::Null,
            CellValue::Bool(b) => CellValue::Bool(*b),
            CellValue::Int(x) => CellValue::Int(*x),
            CellValue::Text(s) => CellValue::Text(s.clone()),
        }
    }
}

/// `acc` extended, in order, with those columns of `s` whose names `acc`
/// does not yet hold.
pub open spec fn append_missing(acc: Seq<ColumnDef>, s: Seq<ColumnDef>) -> Seq<ColumnDef>
    decreases s.len(),
{
    if s.len() == 0 {
        acc
    } else {
        let prev = append_missing(acc, s.drop_last());
        if has_name(prev, s.last().name@) {
            prev
        } else {
            prev.push(s.last())
        }
    }
}

/// The diagonal union of the per-file schemas: every column that occurs in
/// any file, keyed by name, in first-occurrence order.
pub open spec fn diagonal_schema(ss: Seq<Seq<ColumnDef>>) -> Seq<ColumnDef>
    decreases ss.len(),
{
    if ss.len() == 0 {
        Seq::empty()
    } else {
        append_missing(diagonal_schema(ss.drop_last()), ss.last())
    }
}

/// Computes the diagonal union of the given per-file schemas.
pub fn diagonal_union_schema(schemas: &Vec<Vec<ColumnDef>>) -> (r: Vec<ColumnDef>)
    ensures
        r@ == diagonal_schema(schemas@.map_values(|v: Vec<ColumnDef>| v@)),
{
    let ghost sss = schemas@.map_values(|v: Vec<ColumnDef>| v@);
    let mut acc: Vec<ColumnDef> = Vec::new();
    let mut i: usize = 0;
    while i < schemas.len()
        invariant
            0 <= i <= schemas@.len(),
            sss == schemas@.map_values(|v: Vec<ColumnDef>| v@),
            acc@ == diagonal_schema(sss.take(i as int)),
        decreases schemas@.len() - i,
    {
        let ghost acc0 = acc@;
        let mut j: usize = 0;
        while j < schemas[i].len()
            invariant
                0 <= i < schemas@.len(),
                0 <= j <= schemas@[i as int]@.len(),
                sss == schemas@.map_values(|v: Vec<ColumnDef>| v@),
                acc0 == diagonal_schema(sss.take(i as int)),
                acc@ == append_missing(acc0, schemas@[i as int]@.take(j as int)),
            decreases schemas@[i as int]@.len() - j,
        {
            proof {
                assert(schemas@[i as int]@.take(j + 1 as int).drop_last() =~= schemas@[
                    i as int]@.take(j as int));
                assert(schemas@[i as int]@.take(j + 1 as int).last() == schemas@[i as int]@[
                    j as int]);
            }
            if !schema_has_name(&acc, &schemas[i][j].name) {
                let c = schemas[i][j].duplicate();
                acc.push(c);
            }
            j = j + 1;
        }
        proof {
            assert(schemas@[i as int]@.take(schemas@[i as int]@.len() as int) =~= schemas@[
                i as int]@);
            assert(sss.take(i + 1 as int).drop_last() =~= sss.take(i as int));
            assert(sss.take(i + 1 as int).last() == sss[i as int]);
            assert(sss[i as int] == schemas@[i as int]@);
        }
        i = i + 1;
    }
    proof {
        assert(sss.take(sss.len() as int) =~= sss);
    }
    acc
}

/// A name occurs in the extension exactly when it occurs in `acc` or in `s`.
pub proof fn lemma_append_missing_membership(acc: Seq<ColumnDef>, s: Seq<ColumnDef>)
    ensures
        forall|n: Seq<char>|
            has_name(append_missing(acc, s), n) <==> (has_name(acc, n) || has_name(s, n)),
    decreases s.len(),
{
    let e = append_missing(acc, s);
    if s.len() == 0 {
        assert(forall|n: Seq<char>| !has_name(s, n));
    } else {
        let s0 = s.drop_last();
        let prev = append_missing(acc, s0);
        lemma_append_missing_membership(acc, s0);
        assert forall|n: Seq<char>| has_name(e, n) implies (has_name(acc, n) || has_name(
            s,
            n,
        )) by {
            let i = choose|i: int| 0 <= i < e.len() && e[i].name@ == n;
            if i < prev.len() {
                assert(e[i] == prev[i]);
                assert(has_name(prev, n));
                if has_name(s0, n) {
                    let k = choose|k: int| 0 <= k < s0.len() && s0[k].name@ == n;
                    assert(s[k] == s0[k]);
                    assert(has_name(s, n));
                }
            } else {
                assert(e[i] == s.last());
                assert(s[s.len() - 1].name@ == n);
                assert(has_name(s, n));
            }
        };
        assert forall|n: Seq<char>| (has_name(acc, n) || has_name(s, n)) implies has_name(
            e,
            n,
        ) by {
            if has_name(acc, n) || has_name(s0, n) {
                assert(has_name(prev, n));
                let k = choose|k: int| 0 <= k < prev.len() && prev[k].name@ == n;
                assert(e[k] == prev[k]);
                assert(has_name(e, n));
            } else {
                let i = choose|i: int| 0 <= i < s.len() && s[i].name@ == n;
                if i < s.len() - 1 {
                    assert(s0[i] == s[i]);
                    assert(has_name(s0, n));
                } else {
                    assert(s.last().name@ == n);
                    if has_name(prev, n) {
                        assert(has_name(e, n));
                    } else {
                        assert(e[e.len() - 1] == s.last());
                        assert(has_name(e, n));
                    }
                }
            }
        };
    }
}

/// The extension keeps column names pairwise distinct.
pub proof fn lemma_append_missing_unique(acc: Seq<ColumnDef>, s: Seq<ColumnDef>)
    requires
        unique_names(acc),
    ensures
        unique_names(append_missing(acc, s)),
    decreases s.len(),
{
    let e = append_missing(acc, s);
    if s.len() == 0 {
    } else {
        let s0 = s.drop_last();
        let prev = append_missing(acc, s0);
        lemma_append_missing_unique(acc, s0);
        if !has_name(prev, s.last().name@) {
            assert forall|i: int, j: int| 0 <= i < j < e.len() implies e[i].name@
                != e[j].name@ by {
                if j < prev.len() {
                    assert(e[i] == prev[i] && e[j] == prev[j]);
                } else {
                    assert(e[j] == s.last());
                    assert(e[i] == prev[i]);
                    assert(!(prev[i].name@ == s.last().name@));
                }
            }
        }
    }
}

/// Law: the diagonal union of heterogeneous per-file schemas holds exactly
/// the column names that occur in at least one file, each once.
pub proof fn lemma_diagonal_union_totality(ss: Seq<Seq<ColumnDef>>)
    ensures
        forall|n: Seq<char>|
            has_name(diagonal_schema(ss), n) <==> exists|k: int|
                0 <= k < ss.len() && has_name(ss[k], n),
        unique_names(diagonal_schema(ss)),
    decreases ss.len(),
{
    let d = diagonal_schema(ss);
    if ss.len() == 0 {
        assert(forall|n: Seq<char>| !has_name(d, n));
    } else {
        let ss0 = ss.drop_last();
        let d0 = diagonal_schema(ss0);
        lemma_diagonal_union_totality(ss0);
        lemma_append_missing_membership(d0, ss.last());
        lemma_append_missing_unique(d0, ss.last());
        assert forall|n: Seq<char>| has_name(d, n) implies exists|k: int|
            0 <= k < ss.len() && has_name(ss[k], n) by {
            if has_name(d0, n) {
                let k = choose|k: int| 0 <= k < ss0.len() && has_name(ss0[k], n);
                assert(ss[k] == ss0[k]);
                assert(0 <= k < ss.len() && has_name(ss[k], n));
            } else {
                assert(has_name(ss.last(), n));
                assert(ss[ss.len() - 1] == ss.last());
                assert(0 <= ss.len() - 1 < ss.len() && has_name(ss[ss.len() - 1], n));
            }
        };
        assert forall|n: Seq<char>| (exists|k: int| 0 <= k < ss.len() && has_name(ss[k], n))
            implies has_name(d, n) by {
            let k = choose|k: int| 0 <= k < ss.len() && has_name(ss[k], n);
            if k < ss.len() - 1 {
                assert(ss0[k] == ss[k]);
                assert(exists|m: int| 0 <= m < ss0.len() && has_name(ss0[m], n));
                assert(has_name(d0, n));
            } else {
                assert(ss[k] == ss.last());
            }
        };
    }
}

/// The index of the first column of `s` named `n`.
pub open spec fn name_index(s: Seq<ColumnDef>, n: Seq<char>) -> int
    decreases s.len(),
{
    if s.len() == 0 {
        0
    } else if s[0].name@ == n {
        0
    } else {
        1 + name_index(s.drop_first(), n)
    }
}

/// A match at `i` with no earlier match pins the first index down.
pub proof fn lemma_name_index_at(s: Seq<ColumnDef>, n: Seq<char>, i: int)
    requires
        0 <= i < s.len(),
        s[i].name@ == n,
        forall|k: int| 0 <= k < i ==> s[k].name@ != n,
    ensures
        name_index(s, n) == i,
    decreases i,
{
    if i == 0 {
    } else {
        let s1 = s.drop_first();
        assert forall|k: int| 0 <= k < i - 1 implies s1[k].name@ != n by {
            assert(s1[k] == s[k + 1]);
        }
        assert(s1[i - 1] == s[i]);
        lemma_name_index_at(s1, n, i - 1);
    }
}

/// The position of the first column named `n`, if any.
pub fn find_column(cols: &Vec<ColumnDef>, n: &String) -> (r: Option<usize>)
    ensures
        r matches Some(k) ==> (0 <= k < cols@.len() && cols@[k as int].name@ == n@ && k as int
            == name_index(cols@, n@) && has_name(cols@, n@)),
        r is None ==> !has_name(cols@, n@),
{
    let mut i: usize = 0;
    while i < cols.len()
        invariant
            0 <= i <= cols@.len(),
            forall|k: int| 0 <= k < i ==> cols@[k].name@ != n@,
        decreases cols@.len() - i,
    {
        if cols[i].name.eq(n) {
            proof {
                lemma_name_index_at(cols@, n@, i as int);
            }
            return Some(i);
        }
        i = i + 1;
    }
    None
}

/// Rearranges one file's row onto the unioned column set: a unioned column
/// the file holds keeps the file's value, one it lacks becomes null.
pub fn align_row(
    file_cols: &Vec<ColumnDef>,
    union_cols: &Vec<ColumnDef>,
    row: &Vec<CellValue>,
) -> (r: Vec<CellValue>)
    requires
        row@.len() == file_cols@.len(),
    ensures
        r@.len() == union_cols@.len(),
        forall|j: int|
            0 <= j < union_cols@.len() ==> r@[j] == (if has_name(file_cols@, union_cols@[j].name@) {
                row@[name_index(file_cols@, union_cols@[j].name@)]
            } else {
                CellValue::Null
            }),
{
    let mut out: Vec<CellValue> = Vec::new();
    let mut j: usize = 0;
    while j < union_cols.len()
        invariant
            0 <= j <= union_cols@.len(),
            row@.len() == file_cols@.len(),
            out@.len() == j,
            forall|t: int|
                0 <= t < j ==> out@[t] == (if has_name(file_cols@, union_cols@[t].name@) {
                    row@[name_index(file_cols@, union_cols@[t].name@)]
                } else {
                    CellValue::Null
                }),
        decreases union_cols@.len() - j,
    {
        match find_column(file_cols, &union_cols[j].name) {
            Some(k) => {
                out.push(row[k].duplicate());
            },
            None => {
                out.push(CellValue::Null);
            },
        }
        j = j + 1;
    }
    out
}

} // verus!
