//! Where an import's batch lives in blob storage.

use vstd::prelude::*;
use crate::ident::{is_random_id, random_id};
use crate::text::join3;

verus! {

/// The path of the blob that holds the batch named `id`.
pub open spec fn spec_import_data_path(id: Seq<char>) -> Seq<char> {
    "import-data/"@ + id + ".tid"@
}

/// Whether `path` is the path of a batch named by some random identifier.
pub open spec fn is_import_data_path(path: Seq<char>) -> bool {
    exists|id: Seq<char>| is_random_id(id) && path == #[trigger] spec_import_data_path(id)
}

/// The path of the blob that holds the batch named `id`.
pub fn import_data_path(id: &str) -> (path: String)
    ensures
        path@ == spec_import_data_path(id@),
{
    join3("import-data/", id, ".tid")
}

/// A path for a new batch. Each call draws a fresh random name, so no path
/// is ever handed out for two attempts.
pub fn get_import_data_path() -> (path: String)
    ensures
        is_import_data_path(path@),
{
    let id = random_id();
    let path = import_data_path(id.as_str());
    assert(path@ == spec_import_data_path(id@));
    path
}

} // verus!
