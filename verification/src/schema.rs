//! Column schemas and their reconciliation.
//!
//! The snapshot's logical schema lists every output column; the partition
//! columns among them are not stored in the data files but encoded in file
//! paths. Reconciliation splits the logical schema into the physical schema
//! (what is read from files) and the canonical schema (the full output
//! contract, in logical order).

use vstd::prelude::*;

verus! {

/// The primitive column types this bridge models.
#[derive(Clone, Copy, Debug, PartialEq, Eq, Structural)]
pub enum DataType {
    Boolean,
    Int32,
    Int64,
    Float64,
    Utf8,
}

/// One column of a table schema: a name and a type.
#[derive(Debug)]
pub struct ColumnDef {
    pub name: String,
    pub dtype: DataType,
}

impl ColumnDef {
    /// An equal copy of this column definition.
    pub fn duplicate(&self) -> (r: ColumnDef)
        ensures
            r == *self,
    {
        ColumnDef { name: self.name.clone(), dtype: self.dtype }
    }
}

/// Whether some column of `s` is named `n`.
pub open spec fn has_name(s: Seq<ColumnDef>, n: Seq<char>) -> bool {
    exists|i: int| 0 <= i < s.len() && s[i].name@ == n
}

/// Whether the column names of `s` are pairwise distinct.
pub open spec fn unique_names(s: Seq<ColumnDef>) -> bool {
    forall|i: int, j: int| 0 <= i < j < s.len() ==> s[i].name@ != s[j].name@
}

/// The set of column names of `s`.
pub open spec fn name_set(s: Seq<ColumnDef>) -> Set<Seq<char>> {
    Set::new(|n: Seq<char>| has_name(s, n))
}

/// The views of a list of strings.
pub open spec fn views_of(names: Seq<String>) -> Seq<Seq<char>> {
    names.map_values(|s: String| s@)
}

/// `s` without the columns whose names occur in `parts`, in original order.
pub open spec fn excluded(s: Seq<ColumnDef>, parts: Seq<Seq<char>>) -> Seq<ColumnDef>
    decreases s.len(),
{
    if s.len() == 0 {
        Seq::empty()
    } else {
        let prev = excluded(s.drop_last(), parts);
        if parts.contains(s.last().name@) {
            prev
        } else {
            prev.push(s.last())
        }
    }
}

/// Whether some column of `cols` is named `n`.
pub fn schema_has_name(cols: &Vec<ColumnDef>, n: &String) -> (r: bool)
    ensures
        r == has_name(cols@, n@),
{
    let mut i: usize = 0;
    while i < cols.len()
        invariant
            0 <= i <= cols@.len(),
            forall|k: int| 0 <= k < i ==> cols@[k].name@ != n@,
        decreases cols@.len() - i,
    {
        if cols[i].name.eq(n) {
            return true;
        }
        i = i + 1;
    }
    false
}

/// Whether `n` occurs in the list `names`.
pub fn name_in_list(names: &Vec<String>, n: &String) -> (r: bool)
    ensures
        r == views_of(names@).contains(n@),
{
    let mut i: usize = 0;
    while i < names.len()
        invariant
            0 <= i <= names@.len(),
            forall|k: int| 0 <= k < i ==> names@[k]@ != n@,
        decreases names@.len() - i,
    {
        if names[i].eq(n) {
            proof {
                assert(views_of(names@)[i as int] == names@[i as int]@);
            }
            return true;
        }
        i = i + 1;
    }
    proof {
        assert forall|k: int| 0 <= k < views_of(names@).len() implies views_of(names@)[k]
            != n@ by {
            assert(views_of(names@)[k] == names@[k]@);
        }
    }
    false
}

/// An equal copy of a column list.
pub fn duplicate_columns(cols: &Vec<ColumnDef>) -> (r: Vec<ColumnDef>)
    ensures
        r@ == cols@,
{
    let mut out: Vec<ColumnDef> = Vec::new();
    let mut i: usize = 0;
    while i < cols.len()
        invariant
            0 <= i <= cols@.len(),
            out@ =~= cols@.take(i as int),
        decreases cols@.len() - i,
    {
        out.push(cols[i].duplicate());
        proof {
            assert(out@ =~= cols@.take(i + 1 as int));
        }
        i = i + 1;
    }
    proof {
        assert(out@ =~= cols@);
    }
    out
}

/// The derived pair of schemas one scan is planned against.
///
/// `physical` holds the columns actually read from data files; `canonical`
/// is the full output contract, partition columns included, in the logical
/// order the snapshot declared.
#[derive(Debug)]
pub struct ReconciledSchema {
    pub physical: Vec<ColumnDef>,
    pub canonical: Vec<ColumnDef>,
}

/// Splits the logical schema into the physical read schema and the canonical
/// output schema. The physical schema is the logical schema with every
/// partition column excluded, relative order preserved; the canonical schema
/// is the logical schema unchanged.
pub fn reconcile(logical: &Vec<ColumnDef>, partition_columns: &Vec<String>) -> (r:
    ReconciledSchema)
    ensures
        r.canonical@ == logical@,
        r.physical@ == excluded(logical@, views_of(partition_columns@)),
{
    let canonical = duplicate_columns(logical);
    let mut physical: Vec<ColumnDef> = Vec::new();
    let mut i: usize = 0;
    while i < logical.len()
        invariant
            0 <= i <= logical@.len(),
            physical@ == excluded(logical@.take(i as int), views_of(partition_columns@)),
        decreases logical@.len() - i,
    {
        proof {
            assert(logical@.take(i + 1 as int).drop_last() =~= logical@.take(i as int));
            assert(logical@.take(i + 1 as int).last() == logical@[i as int]);
        }
        if !name_in_list(partition_columns, &logical[i].name) {
            physical.push(logical[i].duplicate());
        }
        i = i + 1;
    }
    proof {
        assert(logical@.take(logical@.len() as int) =~= logical@);
    }
    ReconciledSchema { physical, canonical }
}

/// A name survives the exclusion exactly when it occurs in `s` and not in
/// `parts`.
pub proof fn lemma_excluded_membership(s: Seq<ColumnDef>, parts: Seq<Seq<char>>)
    ensures
        forall|n: Seq<char>|
            has_name(excluded(s, parts), n) <==> (has_name(s, n) && !parts.contains(n)),
    decreases s.len(),
{
    let e = excluded(s, parts);
    if s.len() == 0 {
        assert(forall|n: Seq<char>| !has_name(e, n));
        assert(forall|n: Seq<char>| !has_name(s, n));
    } else {
        let s0 = s.drop_last();
        let prev = excluded(s0, parts);
        lemma_excluded_membership(s0, parts);
        assert forall|n: Seq<char>| has_name(e, n) implies (has_name(s, n) && !parts.contains(
            n,
        )) by {
            if parts.contains(s.last().name@) {
                let i = choose|i: int| 0 <= i < prev.len() && prev[i].name@ == n;
                assert(has_name(s0, n));
                let k = choose|k: int| 0 <= k < s0.len() && s0[k].name@ == n;
                assert(s[k] == s0[k]);
                assert(has_name(s, n));
            } else {
                let i = choose|i: int| 0 <= i < e.len() && e[i].name@ == n;
                if i < prev.len() {
                    assert(e[i] == prev[i]);
                    assert(has_name(prev, n));
                    assert(has_name(excluded(s0, parts), n));
                    assert(has_name(s0, n));
                    let k = choose|k: int| 0 <= k < s0.len() && s0[k].name@ == n;
                    assert(s[k] == s0[k]);
                    assert(has_name(s, n));
                } else {
                    assert(e[i] == s.last());
                    assert(s[s.len() - 1].name@ == n);
                    assert(has_name(s, n));
                }
            }
        };
        assert forall|n: Seq<char>| (has_name(s, n) && !parts.contains(n)) implies has_name(
            e,
            n,
        ) by {
            let i = choose|i: int| 0 <= i < s.len() && s[i].name@ == n;
            if i < s.len() - 1 {
                assert(s0[i] == s[i]);
                assert(has_name(s0, n));
                assert(has_name(prev, n));
                let k = choose|k: int| 0 <= k < prev.len() && prev[k].name@ == n;
                assert(e[k] == prev[k]);
                assert(has_name(e, n));
            } else {
                assert(s.last().name@ == n);
                assert(e[e.len() - 1] == s.last());
                assert(has_name(e, n));
            }
        };
    }
}

/// Exclusion keeps column names pairwise distinct.
pub proof fn lemma_excluded_unique(s: Seq<ColumnDef>, parts: Seq<Seq<char>>)
    requires
        unique_names(s),
    ensures
        unique_names(excluded(s, parts)),
    decreases s.len(),
{
    let e = excluded(s, parts);
    if s.len() == 0 {
    } else {
        let s0 = s.drop_last();
        assert forall|i: int, j: int| 0 <= i < j < s0.len() implies s0[i].name@
            != s0[j].name@ by {
            assert(s0[i] == s[i] && s0[j] == s[j]);
        }
        lemma_excluded_unique(s0, parts);
        let prev = excluded(s0, parts);
        if !parts.contains(s.last().name@) {
            lemma_excluded_membership(s0, parts);
            assert forall|k: int| 0 <= k < s0.len() implies s0[k].name@ != s.last().name@ by {
                assert(s0[k] == s[k]);
                assert(s[k].name@ != s[s.len() - 1].name@);
            }
            assert(!has_name(s0, s.last().name@));
            assert(!has_name(prev, s.last().name@));
            assert forall|i: int, j: int| 0 <= i < j < e.len() implies e[i].name@
                != e[j].name@ by {
                if j < prev.len() {
                    assert(e[i] == prev[i] && e[j] == prev[j]);
                } else {
                    assert(e[j] == s.last());
                    assert(e[i] == prev[i]);
                    assert(!(prev[i].name@ == s.last().name@));
                }
            }
        }
    }
}

/// With no partition columns, exclusion leaves the schema untouched: the
/// physical and the canonical schema coincide.
pub proof fn lemma_no_partitions_no_exclusion(s: Seq<ColumnDef>)
    ensures
        excluded(s, Seq::empty()) =~= s,
    decreases s.len(),
{
    if s.len() == 0 {
    } else {
        lemma_no_partitions_no_exclusion(s.drop_last());
        assert(excluded(s, Seq::empty()) =~= s.drop_last().push(s.last()));
        assert(s.drop_last().push(s.last()) =~= s);
    }
}

/// Law: the canonical schema's names are exactly the physical schema's names
/// together with the partition column names, and hold no duplicates. The
/// canonical schema is the logical schema; the physical schema excludes the
/// partition columns.
pub proof fn lemma_schema_coverage(logical: Seq<ColumnDef>, parts: Seq<Seq<char>>)
    requires
        unique_names(logical),
        forall|p: Seq<char>| parts.contains(p) ==> has_name(logical, p),
    ensures
        name_set(logical) =~= name_set(excluded(logical, parts)).union(
            Set::new(|n: Seq<char>| parts.contains(n)),
        ),
        unique_names(logical),
        unique_names(excluded(logical, parts)),
{
    lemma_excluded_membership(logical, parts);
    lemma_excluded_unique(logical, parts);
}

} // verus!
