//! The error taxonomy of plan construction.

use vstd::prelude::*;
use crate::schema::DataType;

verus! {

/// Why a scan could not be planned. Each variant carries the offending
/// identifier: a location, a feature tag, a storage key, or a column name.
#[derive(Debug)]
pub enum ScanError {
    /// The table location is unreachable or holds no table.
    Location(String),
    /// The requested table version does not exist.
    Version(String),
    /// The snapshot declares a reader capability this bridge does not
    /// support; scanning anyway would return wrong data.
    UnsupportedFeature(String),
    /// A storage option was rejected while translating it into an access
    /// configuration.
    InvalidStorageConfig(String),
    /// A column cannot be coerced to its canonical type; names the column
    /// and the two conflicting types.
    SchemaCast { column: String, from: DataType, to: DataType },
    /// A planning-time invariant was violated (for instance an empty
    /// canonical schema).
    PlanConstruction(String),
}

} // verus!
