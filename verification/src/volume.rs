//! An in-memory single-file storage area.
//!
//! A [`Volume`] stands for the piece of the filesystem the store touches:
//! one directory and the one document file inside it. Injected faults model
//! environment conditions the store must survive — a directory that cannot
//! be created, a write the filesystem refuses — and a file can be marked
//! unreadable, standing for a corrupted document. A disk-backed driver
//! replaces this type with real filesystem calls and hands the store the
//! same outcomes.

use vstd::prelude::*;

verus! {

/// Ghost model of the one managed file.
#[verifier::ext_equal]
pub enum FileModel {
    /// No document has been saved (or it was deleted externally).
    Absent,
    /// The document exists and holds this text.
    Present(Seq<char>),
    /// The document exists but cannot be read; the cause is carried.
    Unreadable(Seq<char>),
}

/// The one managed file as an operation finds it: absent, readable with
/// its text, or present but unreadable with the failure cause.
#[derive(Debug)]
pub enum FileState {
    Absent,
    Present(String),
    Unreadable(String),
}

impl View for FileState {
    type V = FileModel;

    open spec fn view(&self) -> FileModel {
        match self {
            FileState::Absent => FileModel::Absent,
            FileState::Present(text) => FileModel::Present(text@),
            FileState::Unreadable(cause) => FileModel::Unreadable(cause@),
        }
    }
}

/// Ghost model of a [`Volume`].
#[verifier::ext_equal]
pub struct VolumeModel {
    pub dir_exists: bool,
    pub file: FileModel,
    pub dir_fault: Option<Seq<char>>,
    pub write_fault: Option<Seq<char>>,
}

/// A fresh storage area: no directory, no document, no fault.
pub open spec fn fresh_volume() -> VolumeModel {
    VolumeModel { dir_exists: false, file: FileModel::Absent, dir_fault: None, write_fault: None }
}

/// What making sure the directory exists does to the volume: under a
/// directory fault nothing changes; otherwise the directory exists
/// afterwards and everything else — the file above all — is untouched.
pub open spec fn ensure_dir_model(v: VolumeModel) -> VolumeModel {
    if v.dir_fault is Some {
        v
    } else {
        VolumeModel { dir_exists: true, ..v }
    }
}

/// What a whole-file overwrite with `content` does to the volume: under a
/// write fault nothing changes; otherwise the file holds exactly `content`
/// and nothing else moves.
pub open spec fn write_model(v: VolumeModel, content: Seq<char>) -> VolumeModel {
    if v.write_fault is Some {
        v
    } else {
        VolumeModel { file: FileModel::Present(content), ..v }
    }
}

/// An in-memory single-file storage area: one directory, one document
/// file, and the faults the environment may inject.
#[derive(Debug)]
pub struct Volume {
    pub dir_exists: bool,
    pub file: FileState,
    /// When set, directory creation fails with this cause.
    pub dir_fault: Option<String>,
    /// When set, writes fail with this cause.
    pub write_fault: Option<String>,
}

impl View for Volume {
    type V = VolumeModel;

    open spec fn view(&self) -> VolumeModel {
        VolumeModel {
            dir_exists: self.dir_exists,
            file: self.file@,
            dir_fault: match self.dir_fault {
                Some(c) => Some(c@),
                None => None,
            },
            write_fault: match self.write_fault {
                Some(c) => Some(c@),
                None => None,
            },
        }
    }
}

impl Volume {
    /// A fresh storage area, as on a new installation.
    pub fn new() -> (r: Volume)
        ensures
            r@ == fresh_volume(),
    {
        Volume { dir_exists: false, file: FileState::Absent, dir_fault: None, write_fault: None }
    }

    /// Create the directory if it is absent; a no-op when it already
    /// exists. Fails exactly under an injected directory fault, and then
    /// changes nothing.
    pub fn ensure_dir(&mut self) -> (r: Result<(), String>)
        ensures
            final(self)@ == ensure_dir_model(old(self)@),
            r is Ok <==> old(self)@.dir_fault is None,
            r matches Err(c) ==> old(self)@.dir_fault matches Some(f) && c@ == f,
    {
        match &self.dir_fault {
            Some(cause) => Err(cause.clone()),
            None => {
                self.dir_exists = true;
                Ok(())
            },
        }
    }

    /// Whole-file overwrite of the document with `content`. Fails exactly
    /// under an injected write fault, and then changes nothing.
    pub fn write(&mut self, content: String) -> (r: Result<(), String>)
        ensures
            final(self)@ == write_model(old(self)@, content@),
            r is Ok <==> old(self)@.write_fault is None,
            r matches Err(c) ==> old(self)@.write_fault matches Some(f) && c@ == f,
    {
        match &self.write_fault {
            Some(cause) => Err(cause.clone()),
            None => {
                self.file = FileState::Present(content);
                Ok(())
            },
        }
    }

    /// The document as it stands. Reading changes nothing.
    pub fn read(&self) -> (r: FileState)
        ensures
            r@ == self@.file,
    {
        match &self.file {
            FileState::Absent => FileState::Absent,
            FileState::Present(text) => FileState::Present(text.clone()),
            FileState::Unreadable(cause) => FileState::Unreadable(cause.clone()),
        }
    }
}

} // verus!
