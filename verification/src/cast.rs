//! The cast step to the canonical schema.
//!
//! After the diagonal union, every output column is cast to its canonical
//! type. The cast is total over the canonical column set and order
//! preserving; a type conflict the engine cannot coerce is reported, naming
//! the column and the two types, never silently reinterpreted.

use vstd::prelude::*;
use crate::schema::{ColumnDef, DataType, has_name};
use crate::union::{name_index, find_column};
use crate::error::ScanError;

verus! {

/// Whether the engine can coerce a value of type `from` into type `to`:
/// the identity, integer widening, integer-to-float widening, or rendering
/// as text.
pub open spec fn castable(from: DataType, to: DataType) -> bool {
    ||| from == to
    ||| to == DataType::Utf8
    ||| (from == DataType::Int32 && (to == DataType::Int64 || to == DataType::Float64))
    ||| (from == DataType::Int64 && to == DataType::Float64)
}

/// Whether `from` coerces into `to`.
pub fn dtype_castable(from: DataType, to: DataType) -> (r: bool)
    ensures
        r == castable(from, to),
{
    from == to || to == DataType::Utf8 || (from == DataType::Int32 && (to == DataType::Int64
        || to == DataType::Float64)) || (from == DataType::Int64 && to == DataType::Float64)
}

/// Whether casting a unioned result with columns `file_cols` to `canonical`
/// coerces every shared column.
pub open spec fn cast_total(file_cols: Seq<ColumnDef>, canonical: Seq<ColumnDef>) -> bool {
    forall|j: int|
        0 <= j < canonical.len() ==> (has_name(file_cols, canonical[j].name@) ==> castable(
            file_cols[name_index(file_cols, canonical[j].name@)].dtype,
            canonical[j].dtype,
        ))
}

/// Checks that every column shared between `file_cols` and `canonical` can
/// be coerced to its canonical type. A column absent from `file_cols` is
/// null-filled and needs no coercion. On failure, names the first
/// conflicting column and both types.
pub fn check_cast(file_cols: &Vec<ColumnDef>, canonical: &Vec<ColumnDef>) -> (r: Result<
    (),
    ScanError,
>)
    ensures
        r is Ok <==> cast_total(file_cols@, canonical@),
        r matches Err(e) ==> exists|j: int|
            {
                &&& 0 <= j < canonical@.len()
                &&& has_name(file_cols@, canonical@[j].name@)
                &&& !castable(
                    file_cols@[name_index(file_cols@, canonical@[j].name@)].dtype,
                    canonical@[j].dtype,
                )
                &&& e == (ScanError::SchemaCast {
                    column: canonical@[j].name,
                    from: file_cols@[name_index(file_cols@, canonical@[j].name@)].dtype,
                    to: canonical@[j].dtype,
                })
            },
{
    let mut j: usize = 0;
    while j < canonical.len()
        invariant
            0 <= j <= canonical@.len(),
            forall|t: int|
                0 <= t < j ==> (has_name(file_cols@, canonical@[t].name@) ==> castable(
                    file_cols@[name_index(file_cols@, canonical@[t].name@)].dtype,
                    canonical@[t].dtype,
                )),
        decreases canonical@.len() - j,
    {
        match find_column(file_cols, &canonical[j].name) {
            Some(k) => {
                if !dtype_castable(file_cols[k].dtype, canonical[j].dtype) {
                    return Err(
                        ScanError::SchemaCast {
                            column: canonical[j].name.clone(),
                            from: file_cols[k].dtype,
                            to: canonical[j].dtype,
                        },
                    );
                }
            },
            None => {},
        }
        j = j + 1;
    }
    Ok(())
}

} // verus!
