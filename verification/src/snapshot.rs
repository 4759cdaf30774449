//! The resolved table snapshot, as the external resolver hands it over.

use vstd::prelude::*;
use crate::schema::{ColumnDef, has_name, unique_names, schema_has_name};

verus! {

/// The state of the table at one version: its logical schema, its partition
/// scheme, its current data files, and the reader capabilities it declares.
/// Produced once per scan request by an external resolver and immutable
/// thereafter.
pub struct ResolvedSnapshot {
    /// Every output column, in declared order.
    pub logical_schema: Vec<ColumnDef>,
    /// Names of the columns encoded in file paths instead of file data;
    /// a subset of the logical schema's names, each named once.
    pub partition_columns: Vec<String>,
    /// The data files of this version.
    pub file_locations: Vec<String>,
    /// The reader capability tags the table declares.
    pub declared_features: Vec<String>,
}

impl ResolvedSnapshot {
    /// Well-formedness: logical column names are unique, and the partition
    /// columns are distinct names drawn from the logical schema.
    pub open spec fn wf(&self) -> bool {
        &&& unique_names(self.logical_schema@)
        &&& (forall|i: int, j: int|
            0 <= i < j < self.partition_columns@.len() ==> self.partition_columns@[i]@
                != self.partition_columns@[j]@)
        &&& (forall|i: int|
            0 <= i < self.partition_columns@.len() ==> has_name(
                self.logical_schema@,
                self.partition_columns@[i]@,
            ))
    }
}

/// Whether the names of `cols` are pairwise distinct.
fn columns_distinct(cols: &Vec<ColumnDef>) -> (r: bool)
    ensures
        r == unique_names(cols@),
{
    let mut i: usize = 0;
    while i < cols.len()
        invariant
            0 <= i <= cols@.len(),
            forall|p: int, q: int| 0 <= p < q < i ==> cols@[p].name@ != cols@[q].name@,
        decreases cols@.len() - i,
    {
        let mut k: usize = 0;
        while k < i
            invariant
                0 <= k <= i < cols@.len(),
                forall|p: int, q: int| 0 <= p < q < i ==> cols@[p].name@ != cols@[q].name@,
                forall|p: int| 0 <= p < k ==> cols@[p].name@ != cols@[i as int].name@,
            decreases i - k,
        {
            if cols[k].name.eq(&cols[i].name) {
                return false;
            }
            k = k + 1;
        }
        i = i + 1;
    }
    true
}

/// Whether the strings of `v` are pairwise distinct.
fn strings_distinct(v: &Vec<String>) -> (r: bool)
    ensures
        r == (forall|i: int, j: int| 0 <= i < j < v@.len() ==> v@[i]@ != v@[j]@),
{
    let mut i: usize = 0;
    while i < v.len()
        invariant
            0 <= i <= v@.len(),
            forall|p: int, q: int| 0 <= p < q < i ==> v@[p]@ != v@[q]@,
        decreases v@.len() - i,
    {
        let mut k: usize = 0;
        while k < i
            invariant
                0 <= k <= i < v@.len(),
                forall|p: int, q: int| 0 <= p < q < i ==> v@[p]@ != v@[q]@,
                forall|p: int| 0 <= p < k ==> v@[p]@ != v@[i as int]@,
            decreases i - k,
        {
            if v[k].eq(&v[i]) {
                return false;
            }
            k = k + 1;
        }
        i = i + 1;
    }
    true
}

/// Decides the snapshot's well-formedness at runtime, so that no caller has
/// to prove it.
pub fn validate_snapshot(s: &ResolvedSnapshot) -> (r: bool)
    ensures
        r == s.wf(),
{
    if !columns_distinct(&s.logical_schema) {
        return false;
    }
    if !strings_distinct(&s.partition_columns) {
        return false;
    }
    let mut i: usize = 0;
    while i < s.partition_columns.len()
        invariant
            0 <= i <= s.partition_columns@.len(),
            unique_names(s.logical_schema@),
            forall|p: int, q: int|
                0 <= p < q < s.partition_columns@.len() ==> s.partition_columns@[p]@
                    != s.partition_columns@[q]@,
            forall|p: int|
                0 <= p < i ==> has_name(s.logical_schema@, s.partition_columns@[p]@),
        decreases s.partition_columns@.len() - i,
    {
        if !schema_has_name(&s.logical_schema, &s.partition_columns[i]) {
            return false;
        }
        i = i + 1;
    }
    true
}

} // verus!
