//! Scan options and the storage-option translation.
//!
//! Callers hand in a generic string-keyed credential map. It is converted
//! here, at one boundary, into a fixed access configuration with an explicit
//! retry budget; later stages never see the untyped map.

use vstd::prelude::*;

verus! {

/// The retry budget an access configuration falls back to when the caller
/// gives none.
pub const DEFAULT_RETRY_BUDGET: u64 = 10;

/// The caller's scan request knobs.
pub struct ScanOptions {
    /// Pin the snapshot to this table version; absent means latest.
    pub version: Option<u64>,
    /// Generic credential key/value pairs, absent for local access.
    pub storage_options: Option<Vec<(String, String)>>,
    /// Trade evaluation throughput for reduced peak memory.
    pub low_memory: bool,
    /// Permit file and row-group skipping from embedded min/max metadata.
    pub use_statistics: bool,
    /// Network retry budget of the access configuration.
    pub retries: Option<u64>,
}

/// The translated, engine-facing cloud access configuration: the table
/// location, the credential entries verbatim, and the retry budget.
pub struct CloudAccessConfig {
    pub url: String,
    pub entries: Vec<(String, String)>,
    pub max_retries: u64,
}

/// Translates the generic storage options into an access configuration.
/// Absent options mean local or opaque access and produce none. Present
/// options keep their entries verbatim and set the retry budget to `retries`
/// when given, else to the documented default of ten.
pub fn translate_storage(
    location: &String,
    storage_options: Option<Vec<(String, String)>>,
    retries: Option<u64>,
) -> (r: Option<CloudAccessConfig>)
    ensures
        storage_options is None <==> r is None,
        storage_options matches Some(m) ==> (r matches Some(c) && c.url == *location && c.entries
            == m),
        retries matches Some(n) ==> (storage_options is Some ==> (r matches Some(c)
            && c.max_retries == n)),
        (storage_options is Some && retries is None) ==> (r matches Some(c) && c.max_retries
            == DEFAULT_RETRY_BUDGET),
{
    match storage_options {
        None => None,
        Some(m) => {
            let budget: u64 = match retries {
                Some(n) => n,
                None => DEFAULT_RETRY_BUDGET,
            };
            Some(CloudAccessConfig { url: location.clone(), entries: m, max_retries: budget })
        },
    }
}

} // verus!
