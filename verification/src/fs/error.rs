//! The filesystem error taxonomy.
//!
//! Every raw status code a host call can return is converted at the boundary
//! into one of these kinds; no raw code escapes the handle layer.

use vstd::prelude::*;

use crate::fs::fslabel::{label_upper_char, FsLabel};
use crate::ident::ResourceId;

verus! {

/// A filesystem error.
#[derive(Debug)]
pub enum Error {
    /// The path carries no `<label>:` prefix.
    NoFsLabel(String),
    /// The would-be label character names no filesystem label.
    NotAFsLabel(String),
    /// No file lives at the path.
    NoSuchFile(String),
    /// No file with the identifier exists on the store.
    NoSuchFileWithId(ResourceId),
    /// A file already lives at the path.
    FileExists(String),
    /// The parent directory of the path does not exist.
    NoSuchDirectory(String),
    /// A directory already lives at the path.
    DirExists(String),
    /// The label names no mounted filesystem.
    NoSuchFs(FsLabel),
    /// The mounted filesystem has no room left.
    NotEnoughSpace(FsLabel),
    /// A filesystem is already mounted at the label.
    FsAlreadyExists(FsLabel),
    /// A host call answered with a negative status that maps to nothing
    /// more specific; the raw status is kept.
    HostCallFailed(i32),
}

/// The description each error kind carries.
pub open spec fn error_message(e: Error) -> Seq<char> {
    match e {
        Error::NoFsLabel(s) => "The path: "@ + s@ + " contains no fs label"@,
        Error::NotAFsLabel(s) => s@ + " is not a valid fs label"@,
        Error::NoSuchFile(s) => "No such file: "@ + s@,
        Error::NoSuchFileWithId(_) => "No such file with the given id"@,
        Error::FileExists(s) => "File already exists at: "@ + s@,
        Error::NoSuchDirectory(s) => "No such directory: "@ + s@,
        Error::DirExists(s) => "Dir already exists at: "@ + s@,
        Error::NoSuchFs(l) => "No fs mounted at: "@ + seq![label_upper_char(l)],
        Error::NotEnoughSpace(l) => "No space left on device: "@ + seq![label_upper_char(l)],
        Error::FsAlreadyExists(l) => "Could not mount file system. A file system is already mounted at: "@
            + seq![label_upper_char(l)],
        Error::HostCallFailed(_) => "Host call failed with an unmapped status"@,
    }
}

impl Error {
    /// A human-readable description of the error.
    pub fn message(&self) -> (r: String)
        ensures
            r@ == error_message(*self),
    {
        match self {
            Error::NoFsLabel(s) => String::from_str("The path: ").concat(s.as_str()).concat(
                " contains no fs label",
            ),
            Error::NotAFsLabel(s) => String::from_str(s.as_str()).concat(
                " is not a valid fs label",
            ),
            Error::NoSuchFile(s) => String::from_str("No such file: ").concat(s.as_str()),
            Error::NoSuchFileWithId(_) => String::from_str("No such file with the given id"),
            Error::FileExists(s) => String::from_str("File already exists at: ").concat(
                s.as_str(),
            ),
            Error::NoSuchDirectory(s) => String::from_str("No such directory: ").concat(
                s.as_str(),
            ),
            Error::DirExists(s) => String::from_str("Dir already exists at: ").concat(s.as_str()),
            Error::NoSuchFs(l) => String::from_str("No fs mounted at: ").concat(l.name()),
            Error::NotEnoughSpace(l) => String::from_str("No space left on device: ").concat(
                l.name(),
            ),
            Error::FsAlreadyExists(l) => String::from_str(
                "Could not mount file system. A file system is already mounted at: ",
            ).concat(l.name()),
            Error::HostCallFailed(_) => String::from_str(
                "Host call failed with an unmapped status",
            ),
        }
    }
}

/// Map the host's status for a file-create call: `-2` means a file already
/// lives at the path, any other failure means the parent directory (or the
/// path itself) is no good.
pub fn file_create_outcome(status: i32, path: String) -> (r: Result<(), Error>)
    ensures
        r is Ok <==> status >= 0,
        status == -2 ==> (r matches Err(e) && e matches Error::FileExists(p) && p@ == path@),
        status < 0 && status != -2 ==> (r matches Err(e) && e matches Error::NoSuchDirectory(p)
            && p@ == path@),
{
    if status >= 0 {
        Ok(())
    } else if status == -2 {
        Err(Error::FileExists(path))
    } else {
        Err(Error::NoSuchDirectory(path))
    }
}

/// Map the host's status for a directory-create call: `-2` means a
/// directory already lives at the path, any other failure means the parent
/// directory (or the path itself) is no good.
pub fn dir_create_outcome(status: i32, path: String) -> (r: Result<(), Error>)
    ensures
        r is Ok <==> status >= 0,
        status == -2 ==> (r matches Err(e) && e matches Error::DirExists(p) && p@ == path@),
        status < 0 && status != -2 ==> (r matches Err(e) && e matches Error::NoSuchDirectory(p)
            && p@ == path@),
{
    if status >= 0 {
        Ok(())
    } else if status == -2 {
        Err(Error::DirExists(path))
    } else {
        Err(Error::NoSuchDirectory(path))
    }
}

/// Map the host's status for a file lookup: any failure means no file
/// lives at the path.
pub fn file_get_outcome(status: i32, path: String) -> (r: Result<(), Error>)
    ensures
        r is Ok <==> status >= 0,
        status < 0 ==> (r matches Err(e) && e matches Error::NoSuchFile(p) && p@ == path@),
{
    if status >= 0 {
        Ok(())
    } else {
        Err(Error::NoSuchFile(path))
    }
}

/// Map the host's status for a directory lookup: `-2` means the label names
/// no mounted filesystem, any other failure means no directory at the path.
pub fn dir_get_outcome(status: i32, path: String, label: FsLabel) -> (r: Result<(), Error>)
    ensures
        r is Ok <==> status >= 0,
        status == -2 ==> r == Err::<(), Error>(Error::NoSuchFs(label)),
        status < 0 && status != -2 ==> (r matches Err(e) && e matches Error::NoSuchDirectory(p)
            && p@ == path@),
{
    if status >= 0 {
        Ok(())
    } else if status == -2 {
        Err(Error::NoSuchFs(label))
    } else {
        Err(Error::NoSuchDirectory(path))
    }
}

/// Map the host's status for a file read: `-2` means the label names no
/// mounted filesystem, any other failure means the file is gone.
pub fn file_read_outcome(status: i32, label: FsLabel, id: ResourceId) -> (r: Result<(), Error>)
    ensures
        r is Ok <==> status >= 0,
        status == -2 ==> r == Err::<(), Error>(Error::NoSuchFs(label)),
        status < 0 && status != -2 ==> (r matches Err(e) && e matches Error::NoSuchFileWithId(i)
            && i@ == id@),
{
    if status >= 0 {
        Ok(())
    } else if status == -2 {
        Err(Error::NoSuchFs(label))
    } else {
        Err(Error::NoSuchFileWithId(id))
    }
}

/// Map the host's status for a file write: `-1` means the file is gone,
/// `-2` means the label names no mounted filesystem, `-3` means the store
/// is out of room; any other negative status maps to nothing more specific
/// and is surfaced as a failed host call.
pub fn file_write_outcome(status: i32, label: FsLabel, id: ResourceId) -> (r: Result<(), Error>)
    ensures
        r is Ok <==> status >= 0,
        status == -1 ==> (r matches Err(e) && e matches Error::NoSuchFileWithId(i) && i@ == id@),
        status == -2 ==> r == Err::<(), Error>(Error::NoSuchFs(label)),
        status == -3 ==> r == Err::<(), Error>(Error::NotEnoughSpace(label)),
        status < -3 ==> r == Err::<(), Error>(Error::HostCallFailed(status)),
{
    if status >= 0 {
        Ok(())
    } else if status == -1 {
        Err(Error::NoSuchFileWithId(id))
    } else if status == -2 {
        Err(Error::NoSuchFs(label))
    } else if status == -3 {
        Err(Error::NotEnoughSpace(label))
    } else {
        Err(Error::HostCallFailed(status))
    }
}

/// Map the host's answer for a file size query: a non-negative status is
/// the size itself, `-2` means the label names no mounted filesystem, any
/// other failure means the file is gone.
pub fn file_size_outcome(status: i32, label: FsLabel, id: ResourceId) -> (r: Result<usize, Error>)
    ensures
        r is Ok <==> status >= 0,
        r matches Ok(n) ==> n == status,
        status == -2 ==> r == Err::<usize, Error>(Error::NoSuchFs(label)),
        status < 0 && status != -2 ==> (r matches Err(e) && e matches Error::NoSuchFileWithId(i)
            && i@ == id@),
{
    if status >= 0 {
        Ok(status as usize)
    } else if status == -2 {
        Err(Error::NoSuchFs(label))
    } else {
        Err(Error::NoSuchFileWithId(id))
    }
}

/// Map the host's status for mounting a RAM filesystem: any failure means
/// the label is taken (or invalid, which the host reports the same way).
pub fn ramfs_init_outcome(status: i32, label: FsLabel) -> (r: Result<(), Error>)
    ensures
        r is Ok <==> status >= 0,
        status < 0 ==> r == Err::<(), Error>(Error::FsAlreadyExists(label)),
{
    if status >= 0 {
        Ok(())
    } else {
        Err(Error::FsAlreadyExists(label))
    }
}

} // verus!
