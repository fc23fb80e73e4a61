//! Where the one managed document lives: the host-supplied data directory
//! joined with the fixed document file name.

use vstd::prelude::*;
use vstd::string::StringExecFns;

use crate::error::{storage_unavailable_error, storage_unavailable_message, ErrorModel, StoreError};

verus! {

/// The fixed name of the one managed document file.
pub open spec fn data_file_name() -> Seq<char> {
    "skating_data.json"@
}

/// The document's full path under a given data directory.
pub open spec fn path_of(dir: Seq<char>) -> Seq<char> {
    dir + "/"@ + data_file_name()
}

/// The resolved storage location: the host's private data directory for
/// this application. The managed document is the one file named
/// [`data_file_name`] inside it.
#[derive(Debug)]
pub struct StorageLocation {
    pub dir: String,
}

impl StorageLocation {
    /// The full path of the managed document file.
    pub fn file_path(&self) -> (r: String)
        ensures
            r@ == path_of(self.dir@),
    {
        let mut p = self.dir.clone();
        p.append("/");
        p.append("skating_data.json");
        p
    }
}

/// Turns the host-supplied data directory into a storage location. A host
/// that cannot supply one yields `StorageUnavailable`; nothing else fails.
pub fn resolve_location(host_dir: Option<String>) -> (r: Result<StorageLocation, StoreError>)
    ensures
        match r {
            Ok(loc) => host_dir matches Some(d) && loc.dir@ == d@,
            Err(e) => host_dir is None && e@ == ErrorModel::StorageUnavailable(
                storage_unavailable_message(),
            ),
        },
{
    match host_dir {
        Some(dir) => Ok(StorageLocation { dir }),
        None => Err(storage_unavailable_error()),
    }
}

} // verus!
