//! The failure taxonomy of the store and the exact diagnostic messages
//! each failure carries.

use vstd::prelude::*;
use vstd::string::StringExecFns;

verus! {

/// Ghost model of a failure: its kind and the message it carries.
#[verifier::ext_equal]
pub enum ErrorModel {
    /// The host cannot supply a private data directory.
    StorageUnavailable(Seq<char>),
    /// A filesystem failure during directory creation, write, or read.
    IOError(Seq<char>),
}

impl ErrorModel {
    /// The diagnostic message, whatever the kind.
    pub open spec fn message(self) -> Seq<char> {
        match self {
            ErrorModel::StorageUnavailable(m) => m,
            ErrorModel::IOError(m) => m,
        }
    }
}

/// A failed store operation: the kind of failure plus a human-readable
/// diagnostic message. Every failure is returned as a value; no operation
/// of the store panics.
#[derive(Debug)]
pub enum StoreError {
    /// The host cannot supply a private data directory.
    StorageUnavailable(String),
    /// A filesystem failure during directory creation, write, or read,
    /// with the underlying cause appended.
    IOError(String),
}

impl View for StoreError {
    type V = ErrorModel;

    open spec fn view(&self) -> ErrorModel {
        match self {
            StoreError::StorageUnavailable(m) => ErrorModel::StorageUnavailable(m@),
            StoreError::IOError(m) => ErrorModel::IOError(m@),
        }
    }
}

impl StoreError {
    /// The diagnostic message carried by this error.
    pub fn message(&self) -> (r: &str)
        ensures
            r@ == self@.message(),
    {
        match self {
            StoreError::StorageUnavailable(m) => m.as_str(),
            StoreError::IOError(m) => m.as_str(),
        }
    }
}

/// The message reported when the host supplies no data directory.
pub open spec fn storage_unavailable_message() -> Seq<char> {
    "Failed to get app data directory"@
}

/// The message reported when the data directory cannot be created;
/// `cause` is the underlying filesystem diagnostic.
pub open spec fn dir_failure_message(cause: Seq<char>) -> Seq<char> {
    "Failed to create app data directory: "@ + cause
}

/// The message reported when the document cannot be written;
/// `cause` is the underlying filesystem diagnostic.
pub open spec fn write_failure_message(cause: Seq<char>) -> Seq<char> {
    "Failed to save data: "@ + cause
}

/// The message reported when an existing document cannot be read;
/// `cause` is the underlying filesystem diagnostic.
pub open spec fn read_failure_message(cause: Seq<char>) -> Seq<char> {
    "Failed to load data: "@ + cause
}

/// The error for a host without a data directory.
pub fn storage_unavailable_error() -> (r: StoreError)
    ensures
        r@ == ErrorModel::StorageUnavailable(storage_unavailable_message()),
{
    StoreError::StorageUnavailable("Failed to get app data directory".to_owned())
}

/// The error for a directory that could not be created.
pub fn dir_failure_error(cause: String) -> (r: StoreError)
    ensures
        r@ == ErrorModel::IOError(dir_failure_message(cause@)),
{
    let mut m = "Failed to create app data directory: ".to_owned();
    m.append(cause.as_str());
    StoreError::IOError(m)
}

/// The error for a document that could not be written.
pub fn write_failure_error(cause: String) -> (r: StoreError)
    ensures
        r@ == ErrorModel::IOError(write_failure_message(cause@)),
{
    let mut m = "Failed to save data: ".to_owned();
    m.append(cause.as_str());
    StoreError::IOError(m)
}

/// The error for an existing document that could not be read.
pub fn read_failure_error(cause: String) -> (r: StoreError)
    ensures
        r@ == ErrorModel::IOError(read_failure_message(cause@)),
{
    let mut m = "Failed to load data: ".to_owned();
    m.append(cause.as_str());
    StoreError::IOError(m)
}

} // verus!
