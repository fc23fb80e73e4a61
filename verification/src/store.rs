//! The document store: durable persistence of one opaque text document
//! under a host-provided directory.
//!
//! Each operation resolves the storage location, makes sure the directory
//! exists, and then performs one whole-file read or write. A load before
//! the first save returns the defined empty default `[]`; a save fully
//! replaces the prior document and confirms with the resolved path; every
//! failure is returned as a [`StoreError`] value.

use vstd::prelude::*;
use vstd::string::StringExecFns;

use crate::error::{
    dir_failure_error, dir_failure_message, read_failure_error, read_failure_message,
    write_failure_error, write_failure_message, ErrorModel, StoreError,
};
use crate::location::{path_of, resolve_location, StorageLocation};
use crate::volume::{
    ensure_dir_model, write_model, FileModel, FileState, Volume, VolumeModel,
};

verus! {

/// The text a load returns before any document was saved: the empty
/// JSON-array literal, by convention of the callers.
pub open spec fn empty_document() -> Seq<char> {
    "[]"@
}

/// The confirmation a successful save returns; it carries the resolved
/// path of the document file for caller-side diagnostics.
pub open spec fn confirmation_message(path: Seq<char>) -> Seq<char> {
    "Data saved to "@ + path
}

/// How an executable outcome realises a ghost one: same success or
/// failure, and the carried text or error is exactly the modelled one.
pub open spec fn outcome_matches(
    r: Result<String, StoreError>,
    m: Result<Seq<char>, ErrorModel>,
) -> bool {
    match (r, m) {
        (Ok(text), Ok(model)) => text@ == model,
        (Err(e), Err(f)) => e@ == f,
        _ => false,
    }
}

/// What a load returns for each state the document can be found in: the
/// empty default when absent, the text itself when readable, and an
/// `IOError` when the file exists but cannot be read.
pub open spec fn load_result_of(file: FileModel) -> Result<Seq<char>, ErrorModel> {
    match file {
        FileModel::Absent => Ok(empty_document()),
        FileModel::Present(text) => Ok(text),
        FileModel::Unreadable(cause) => Err(ErrorModel::IOError(read_failure_message(cause))),
    }
}

/// Decides the result of a load from the document as found. Only an
/// existing-but-unreadable file is an error; a missing file is the defined
/// empty state, not a failure.
pub fn load_outcome(found: FileState) -> (r: Result<String, StoreError>)
    ensures
        outcome_matches(r, load_result_of(found@)),
{
    match found {
        FileState::Absent => Ok("[]".to_owned()),
        FileState::Present(text) => Ok(text),
        FileState::Unreadable(cause) => Err(read_failure_error(cause)),
    }
}

/// Decides the result of a save from the outcome of the underlying
/// whole-file write: a confirmation carrying the resolved path on success,
/// an `IOError` wrapping the cause on failure.
pub fn save_outcome(loc: &StorageLocation, write: Result<(), String>) -> (r: Result<
    String,
    StoreError,
>)
    ensures
        write is Ok ==> (r matches Ok(c) && c@ == confirmation_message(path_of(loc.dir@))),
        write matches Err(cause) ==> (r matches Err(e) && e@ == ErrorModel::IOError(
            write_failure_message(cause@),
        )),
{
    match write {
        Ok(_) => {
            let mut m = "Data saved to ".to_owned();
            let p = loc.file_path();
            m.append(p.as_str());
            Ok(m)
        },
        Err(cause) => Err(write_failure_error(cause)),
    }
}

/// Ghost model of a [`DocumentStore`]: the resolved directory and the
/// storage area it manages.
#[verifier::ext_equal]
pub struct StoreModel {
    pub dir: Seq<char>,
    pub volume: VolumeModel,
}

/// What one `save(content)` call does to the store: the directory is made
/// to exist, then the document is replaced by `content` — except that an
/// injected fault stops the step it belongs to.
pub open spec fn save_model(m: StoreModel, content: Seq<char>) -> StoreModel {
    if m.volume.dir_fault is Some {
        m
    } else {
        StoreModel { volume: write_model(ensure_dir_model(m.volume), content), ..m }
    }
}

/// The result of one `save(content)` call: a directory fault and then a
/// write fault fail it with an `IOError`; otherwise it succeeds with the
/// confirmation carrying the resolved path.
pub open spec fn save_result_model(m: StoreModel) -> Result<Seq<char>, ErrorModel> {
    match m.volume.dir_fault {
        Some(cause) => Err(ErrorModel::IOError(dir_failure_message(cause))),
        None => match m.volume.write_fault {
            Some(cause) => Err(ErrorModel::IOError(write_failure_message(cause))),
            None => Ok(confirmation_message(path_of(m.dir))),
        },
    }
}

/// What one `load()` call does to the store: it only makes sure the
/// directory exists; the document itself is never changed by a load.
pub open spec fn load_model(m: StoreModel) -> StoreModel {
    StoreModel { volume: ensure_dir_model(m.volume), ..m }
}

/// The result of one `load()` call: a directory fault fails it; otherwise
/// the document decides, as [`load_result_of`] says.
pub open spec fn load_result_model(m: StoreModel) -> Result<Seq<char>, ErrorModel> {
    match m.volume.dir_fault {
        Some(cause) => Err(ErrorModel::IOError(dir_failure_message(cause))),
        None => load_result_of(m.volume.file),
    }
}

/// The store: one opaque text document, durably kept as the one fixed
/// file inside the host-supplied data directory.
#[derive(Debug)]
pub struct DocumentStore {
    location: StorageLocation,
    volume: Volume,
}

impl View for DocumentStore {
    type V = StoreModel;

    closed spec fn view(&self) -> StoreModel {
        StoreModel { dir: self.location.dir@, volume: self.volume@ }
    }
}

impl DocumentStore {
    /// Construct a store over `volume` for the host-supplied data
    /// directory. Fails with `StorageUnavailable` exactly when the host
    /// supplies none.
    pub fn open(host_dir: Option<String>, volume: Volume) -> (r: Result<DocumentStore, StoreError>)
        ensures
            match r {
                Ok(store) => host_dir matches Some(d) && store@ == (StoreModel {
                    dir: d@,
                    volume: volume@,
                }),
                Err(e) => host_dir is None && e@ == ErrorModel::StorageUnavailable(
                    crate::error::storage_unavailable_message(),
                ),
            },
    {
        match resolve_location(host_dir) {
            Ok(location) => Ok(DocumentStore { location, volume }),
            Err(e) => Err(e),
        }
    }

    /// The resolved path of the managed document file.
    pub fn file_path(&self) -> (r: String)
        ensures
            r@ == path_of(self@.dir),
    {
        self.location.file_path()
    }

    /// Save: make sure the directory exists, then fully replace the
    /// document with `content` — no merge, no append. On success the
    /// confirmation carries the resolved path.
    pub fn save(&mut self, content: String) -> (r: Result<String, StoreError>)
        ensures
            final(self)@ == save_model(old(self)@, content@),
            outcome_matches(r, save_result_model(old(self)@)),
    {
        match self.volume.ensure_dir() {
            Err(cause) => Err(dir_failure_error(cause)),
            Ok(_) => {
                let write = self.volume.write(content);
                save_outcome(&self.location, write)
            },
        }
    }

    /// Load: make sure the directory exists, then return the document's
    /// text — or the defined empty default `[]` when no document exists.
    /// Only an existing-but-unreadable file is an error.
    pub fn load(&mut self) -> (r: Result<String, StoreError>)
        ensures
            final(self)@ == load_model(old(self)@),
            outcome_matches(r, load_result_model(old(self)@)),
    {
        match self.volume.ensure_dir() {
            Err(cause) => Err(dir_failure_error(cause)),
            Ok(_) => load_outcome(self.volume.read()),
        }
    }
}

} // verus!
