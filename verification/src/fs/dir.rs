//! Directory handles.
//!
//! A [`Directory`] pairs a filesystem label with the opaque identifier of a
//! directory entry, just as [`crate::fs::file::File`] does for files.

use vstd::prelude::*;

use crate::fs::error::Error;
use crate::fs::fslabel::{has_colon, label_of_char, FsLabel};
use crate::fs::{
    bump, dir_index, fresh_id_seq, lemma_dir_index, parent_exists, path_label, path_label_ok,
    store_wf, DirEntryView, RamFileSystem, RamFileSystemView,
};
use crate::ident::ResourceId;

verus! {

/// Abstract state of a directory handle.
pub struct DirectoryView {
    pub label: FsLabel,
    pub id: Seq<u8>,
}

/// A handle to a directory on a mounted RAM filesystem.
#[derive(Debug)]
pub struct Directory {
    fs_label: FsLabel,
    id: ResourceId,
}

impl View for Directory {
    type V = DirectoryView;

    closed spec fn view(&self) -> DirectoryView {
        DirectoryView { label: self.fs_label, id: self.id@ }
    }
}

impl Clone for Directory {
    /// Cloning duplicates the handle — the label and the identifier — not
    /// the backing resource; both handles name the same directory.
    fn clone(&self) -> (r: Directory)
        ensures
            r@ == self@,
    {
        Directory { fs_label: self.fs_label, id: self.id.duplicate() }
    }
}

/// The store after a directory is created at `p`: one new directory entry,
/// carrying the next fresh identifier, and an advanced counter.
pub open spec fn create_dir_next(v: RamFileSystemView, p: Seq<char>) -> RamFileSystemView {
    RamFileSystemView {
        dirs: v.dirs.push(DirEntryView { path: p, id: fresh_id_seq(v.next_id) }),
        next_id: bump(v.next_id),
        ..v
    }
}

impl Directory {
    /// Open the directory at `path`.
    ///
    /// Succeeds exactly when the path carries a label and a directory lives
    /// at it; the handle then pairs that label with the identifier the
    /// store holds for the path.
    pub fn open(fs: &RamFileSystem, path: &str) -> (r: Result<Directory, Error>)
        ensures
            r is Ok <==> path_label_ok(path@) && dir_index(fs@.dirs, path@) >= 0,
            r matches Ok(d) ==> d@.label == path_label(path@)
                && d@.id == fs@.dirs[dir_index(fs@.dirs, path@)].id,
            !has_colon(path@) ==> (r matches Err(e) && e matches Error::NoFsLabel(p)
                && p@ == path@),
            has_colon(path@) && label_of_char(path@[0]) is None ==> (r matches Err(e)
                && e matches Error::NotAFsLabel(p) && p@ == path@.subrange(0, 1)),
            path_label_ok(path@) && dir_index(fs@.dirs, path@) < 0 ==> (r matches Err(e)
                && e matches Error::NoSuchDirectory(p) && p@ == path@),
    {
        let label = match FsLabel::extract_from_path(path) {
            Ok(l) => l,
            Err(e) => return Err(e),
        };
        let key: String = path.to_owned();
        match fs.find_dir_by_path(&key) {
            Some(i) => {
                proof {
                    lemma_dir_index(fs@.dirs, path@);
                }
                let id = fs.dir_id_at(i).duplicate();
                Ok(Directory { fs_label: label, id })
            },
            None => Err(Error::NoSuchDirectory(key)),
        }
    }

    /// Create a directory at `path` and hand back its handle.
    ///
    /// Succeeds exactly when the path carries a label, that label is
    /// mounted, no directory lives at the path yet, and the parent
    /// directory exists.  On failure the store is unchanged.
    pub fn create(fs: &mut RamFileSystem, path: &str) -> (r: Result<Directory, Error>)
        ensures
            r is Ok <==> path_label_ok(path@)
                && old(fs)@.mounted.contains(path_label(path@))
                && dir_index(old(fs)@.dirs, path@) < 0
                && parent_exists(old(fs)@, path@),
            r matches Ok(d) ==> final(fs)@ == create_dir_next(old(fs)@, path@)
                && d@.label == path_label(path@)
                && d@.id == fresh_id_seq(old(fs)@.next_id),
            r is Err ==> final(fs)@ == old(fs)@,
            !has_colon(path@) ==> (r matches Err(e) && e matches Error::NoFsLabel(p)
                && p@ == path@),
            has_colon(path@) && label_of_char(path@[0]) is None ==> (r matches Err(e)
                && e matches Error::NotAFsLabel(p) && p@ == path@.subrange(0, 1)),
            path_label_ok(path@) && !old(fs)@.mounted.contains(path_label(path@)) ==> r
                == Err::<Directory, Error>(Error::NoSuchFs(path_label(path@))),
            path_label_ok(path@) && old(fs)@.mounted.contains(path_label(path@))
                && dir_index(old(fs)@.dirs, path@) >= 0 ==> (r matches Err(e)
                && e matches Error::DirExists(p) && p@ == path@),
            path_label_ok(path@) && old(fs)@.mounted.contains(path_label(path@))
                && dir_index(old(fs)@.dirs, path@) < 0
                && !parent_exists(old(fs)@, path@) ==> (r matches Err(e)
                && e matches Error::NoSuchDirectory(p) && p@ == path@),
    {
        let label = match FsLabel::extract_from_path(path) {
            Ok(l) => l,
            Err(e) => return Err(e),
        };
        if !fs.is_mounted(label) {
            return Err(Error::NoSuchFs(label));
        }
        let key: String = path.to_owned();
        if fs.find_dir_by_path(&key).is_some() {
            return Err(Error::DirExists(key));
        }
        if !fs.has_parent(path) {
            return Err(Error::NoSuchDirectory(key));
        }
        let id = fs.fresh_id();
        let handle_id = id.duplicate();
        fs.push_dir(key, id);
        proof {
            assert(fs@.dirs =~= create_dir_next(old(fs)@, path@).dirs);
        }
        Ok(Directory { fs_label: label, id: handle_id })
    }

    /// The identifier the handle names.
    pub fn id(&self) -> (r: &ResourceId)
        ensures
            r@ == self@.id,
    {
        &self.id
    }

    /// The label of the store the handle belongs to.
    pub fn fs(&self) -> (r: FsLabel)
        ensures
            r == self@.label,
    {
        self.fs_label
    }
}

/// Creating a directory at a path no directory lives at keeps the store
/// sound.
pub proof fn lemma_create_dir_preserves_wf(v: RamFileSystemView, p: Seq<char>)
    requires
        store_wf(v),
        dir_index(v.dirs, p) < 0,
    ensures
        store_wf(create_dir_next(v, p)),
{
    lemma_dir_index(v.dirs, p);
    let v1 = create_dir_next(v, p);
    assert forall|i: int, j: int|
        0 <= i < j < v1.dirs.len() implies v1.dirs[i].path != v1.dirs[j].path by {
        if j < v.dirs.len() {
            assert(v1.dirs[i] == v.dirs[i]);
            assert(v1.dirs[j] == v.dirs[j]);
        } else {
            assert(v1.dirs[i] == v.dirs[i]);
            assert(v1.dirs[j].path == p);
        }
    }
}

/// Creating a directory and then opening the same path yields handles that
/// agree on label and identifier, just as for files.
pub proof fn lemma_create_then_open_dir_agrees(v: RamFileSystemView, p: Seq<char>)
    requires
        path_label_ok(p),
        v.mounted.contains(path_label(p)),
        dir_index(v.dirs, p) < 0,
        parent_exists(v, p),
    ensures
        ({
            let v1 = create_dir_next(v, p);
            &&& dir_index(v1.dirs, p) == v1.dirs.len() - 1
            &&& v1.dirs[dir_index(v1.dirs, p)].id == fresh_id_seq(v.next_id)
        }),
{
    let v1 = create_dir_next(v, p);
    lemma_dir_index(v.dirs, p);
    lemma_dir_index(v1.dirs, p);
    let last = v1.dirs.len() - 1;
    assert(v1.dirs[last].path == p);
    if dir_index(v1.dirs, p) < 0 {
        assert(v1.dirs[last].path != p);
        assert(false);
    }
    let k = dir_index(v1.dirs, p);
    if k < last {
        assert(v1.dirs[k] == v.dirs[k]);
        assert(false);
    }
}

} // verus!
