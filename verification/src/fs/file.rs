//! File handles.
//!
//! A [`File`] is a lightweight pairing of a filesystem label and an opaque
//! identifier; the authoritative bytes live in the store.  Nothing is cached
//! guest-side: every read, write and size query goes back to the store, and
//! each operation's contract is a transition of [`RamFileSystemView`].

use vstd::prelude::*;

use crate::fs::error::Error;
use crate::fs::fslabel::{has_colon, label_of_char, FsLabel};
use crate::fs::{
    bump, fresh_id_seq, id_index, lemma_id_index, lemma_path_index, parent_exists, path_index,
    path_label, path_label_ok, read_bytes, store_wf, write_bytes, FileEntryView, RamFileSystem,
    RamFileSystemView,
};
use crate::ident::ResourceId;

verus! {

/// Abstract state of a file handle: which store it belongs to and which
/// identifier it names.
pub struct FileView {
    pub label: FsLabel,
    pub id: Seq<u8>,
}

/// A handle to a file on a mounted RAM filesystem.
#[derive(Debug)]
pub struct File {
    fs_label: FsLabel,
    id: ResourceId,
}

impl View for File {
    type V = FileView;

    closed spec fn view(&self) -> FileView {
        FileView { label: self.fs_label, id: self.id@ }
    }
}

impl Clone for File {
    /// Cloning duplicates the handle — the label and the identifier — not
    /// the backing resource; both handles name the same file.
    fn clone(&self) -> (r: File)
        ensures
            r@ == self@,
    {
        File { fs_label: self.fs_label, id: self.id.duplicate() }
    }
}

/// The store after a file is created at `p`: one new empty file entry,
/// carrying the next fresh identifier, and an advanced counter.
pub open spec fn create_file_next(v: RamFileSystemView, p: Seq<char>) -> RamFileSystemView {
    RamFileSystemView {
        files: v.files.push(
            FileEntryView { path: p, id: fresh_id_seq(v.next_id), content: Seq::empty() },
        ),
        next_id: bump(v.next_id),
        ..v
    }
}

/// The store after `d` is written at offset `off` of the file named `id`:
/// only that file's content changes, as [`write_bytes`] says.
pub open spec fn write_file_next(
    v: RamFileSystemView,
    id: Seq<u8>,
    off: int,
    d: Seq<u8>,
) -> RamFileSystemView {
    let k = id_index(v.files, id);
    RamFileSystemView {
        files: v.files.update(
            k,
            FileEntryView { content: write_bytes(v.files[k].content, off, d), ..v.files[k] },
        ),
        ..v
    }
}

impl File {
    /// Open the file at `path`.
    ///
    /// Succeeds exactly when the path carries a label and a file lives at
    /// it; the handle then pairs that label with the identifier the store
    /// holds for the path.
    pub fn open(fs: &RamFileSystem, path: &str) -> (r: Result<File, Error>)
        ensures
            r is Ok <==> path_label_ok(path@) && path_index(fs@.files, path@) >= 0,
            r matches Ok(f) ==> f@.label == path_label(path@)
                && f@.id == fs@.files[path_index(fs@.files, path@)].id,
            !has_colon(path@) ==> (r matches Err(e) && e matches Error::NoFsLabel(p)
                && p@ == path@),
            has_colon(path@) && label_of_char(path@[0]) is None ==> (r matches Err(e)
                && e matches Error::NotAFsLabel(p) && p@ == path@.subrange(0, 1)),
            path_label_ok(path@) && path_index(fs@.files, path@) < 0 ==> (r matches Err(e)
                && e matches Error::NoSuchFile(p) && p@ == path@),
    {
        let label = match FsLabel::extract_from_path(path) {
            Ok(l) => l,
            Err(e) => return Err(e),
        };
        let key: String = path.to_owned();
        match fs.find_file_by_path(&key) {
            Some(i) => {
                proof {
                    lemma_path_index(fs@.files, path@);
                }
                let id = fs.file_id_at(i).duplicate();
                Ok(File { fs_label: label, id })
            },
            None => Err(Error::NoSuchFile(key)),
        }
    }

    /// Create an empty file at `path` and hand back its handle.
    ///
    /// Succeeds exactly when the path carries a label, that label is
    /// mounted, no file lives at the path yet, and the parent directory
    /// exists.  On success the store gains one empty entry and the handle
    /// names it; on failure the store is unchanged.
    pub fn create(fs: &mut RamFileSystem, path: &str) -> (r: Result<File, Error>)
        ensures
            r is Ok <==> path_label_ok(path@)
                && old(fs)@.mounted.contains(path_label(path@))
                && path_index(old(fs)@.files, path@) < 0
                && parent_exists(old(fs)@, path@),
            r matches Ok(f) ==> final(fs)@ == create_file_next(old(fs)@, path@)
                && f@.label == path_label(path@)
                && f@.id == fresh_id_seq(old(fs)@.next_id),
            r is Err ==> final(fs)@ == old(fs)@,
            !has_colon(path@) ==> (r matches Err(e) && e matches Error::NoFsLabel(p)
                && p@ == path@),
            has_colon(path@) && label_of_char(path@[0]) is None ==> (r matches Err(e)
                && e matches Error::NotAFsLabel(p) && p@ == path@.subrange(0, 1)),
            path_label_ok(path@) && !old(fs)@.mounted.contains(path_label(path@)) ==> r
                == Err::<File, Error>(Error::NoSuchFs(path_label(path@))),
            path_label_ok(path@) && old(fs)@.mounted.contains(path_label(path@))
                && path_index(old(fs)@.files, path@) >= 0 ==> (r matches Err(e)
                && e matches Error::FileExists(p) && p@ == path@),
            path_label_ok(path@) && old(fs)@.mounted.contains(path_label(path@))
                && path_index(old(fs)@.files, path@) < 0
                && !parent_exists(old(fs)@, path@) ==> (r matches Err(e)
                && e matches Error::NoSuchDirectory(p) && p@ == path@),
    {
        let label = match FsLabel::extract_from_path(path) {
            Ok(l) => l,
            Err(e) => return Err(e),
        };
        if !fs.is_mounted(label) {
            return Err(Error::NoSuchFs(label));
        }
        let key: String = path.to_owned();
        if fs.find_file_by_path(&key).is_some() {
            return Err(Error::FileExists(key));
        }
        if !fs.has_parent(path) {
            return Err(Error::NoSuchDirectory(key));
        }
        let id = fs.fresh_id();
        let handle_id = id.duplicate();
        let content: Vec<u8> = Vec::new();
        proof {
            assert(content@ =~= Seq::<u8>::empty());
        }
        fs.push_file(key, id, content);
        proof {
            assert(fs@.files =~= create_file_next(old(fs)@, path@).files);
        }
        Ok(File { fs_label: label, id: handle_id })
    }

    /// Read `size` bytes at `offset`.
    ///
    /// Succeeds exactly when the handle's label is mounted and its file
    /// still exists; the result is always exactly `size` bytes — the
    /// file's bytes where the range lies within it, zero-filled wherever
    /// it runs past the end.
    pub fn read(&self, fs: &RamFileSystem, offset: usize, size: usize) -> (r: Result<
        Vec<u8>,
        Error,
    >)
        ensures
            r is Ok <==> fs@.mounted.contains(self@.label) && id_index(fs@.files, self@.id) >= 0,
            r matches Ok(bytes) ==> bytes@ == read_bytes(
                fs@.files[id_index(fs@.files, self@.id)].content,
                offset as int,
                size as int,
            ),
            !fs@.mounted.contains(self@.label) ==> r == Err::<Vec<u8>, Error>(
                Error::NoSuchFs(self@.label),
            ),
            fs@.mounted.contains(self@.label) && id_index(fs@.files, self@.id) < 0 ==> (
            r matches Err(e) && e matches Error::NoSuchFileWithId(id) && id@ == self@.id),
    {
        if !fs.is_mounted(self.fs_label) {
            return Err(Error::NoSuchFs(self.fs_label));
        }
        match fs.find_file_by_id(&self.id) {
            None => Err(Error::NoSuchFileWithId(self.id.duplicate())),
            Some(i) => {
                proof {
                    lemma_id_index(fs@.files, self@.id);
                }
                let content = fs.file_content_at(i);
                let len = content.len();
                let mut out: Vec<u8> = Vec::new();
                let mut j: usize = 0;
                while j < size
                    invariant
                        j <= size,
                        len == content@.len(),
                        out@.len() == j,
                        forall|q: int| 0 <= q < j ==> out@[q] == (if offset + q
                            < content@.len() {
                            content@[offset + q]
                        } else {
                            0u8
                        }),
                    decreases size - j,
                {
                    if offset < len && j < len - offset {
                        out.push(content[offset + j]);
                    } else {
                        out.push(0);
                    }
                    j = j + 1;
                }
                proof {
                    assert(out@ =~= read_bytes(
                        fs@.files[id_index(fs@.files, self@.id)].content,
                        offset as int,
                        size as int,
                    ));
                }
                Ok(out)
            },
        }
    }

    /// Read the whole file.
    pub fn read_all(&self, fs: &RamFileSystem) -> (r: Result<Vec<u8>, Error>)
        ensures
            r is Ok <==> fs@.mounted.contains(self@.label) && id_index(fs@.files, self@.id) >= 0,
            r matches Ok(bytes) ==> bytes@ == fs@.files[id_index(fs@.files, self@.id)].content,
            !fs@.mounted.contains(self@.label) ==> r == Err::<Vec<u8>, Error>(
                Error::NoSuchFs(self@.label),
            ),
            fs@.mounted.contains(self@.label) && id_index(fs@.files, self@.id) < 0 ==> (
            r matches Err(e) && e matches Error::NoSuchFileWithId(id) && id@ == self@.id),
    {
        let n = match self.size(fs) {
            Ok(n) => n,
            Err(e) => return Err(e),
        };
        let r = self.read(fs, 0, n);
        proof {
            let c = fs@.files[id_index(fs@.files, self@.id)].content;
            assert(read_bytes(c, 0, n as int) =~= c);
        }
        r
    }

    /// Write `data` at `offset`.
    ///
    /// Succeeds exactly when the handle's label is mounted and its file
    /// still exists.  Bytes before the offset survive (with zero fill if the
    /// file was shorter), the data replaces what lay in its range, and bytes
    /// beyond it survive; on failure the store is unchanged.
    pub fn write(&self, fs: &mut RamFileSystem, offset: usize, data: &[u8]) -> (r: Result<
        (),
        Error,
    >)
        requires
            offset + data@.len() <= usize::MAX,
        ensures
            r is Ok <==> old(fs)@.mounted.contains(self@.label)
                && id_index(old(fs)@.files, self@.id) >= 0,
            r is Ok ==> final(fs)@ == write_file_next(old(fs)@, self@.id, offset as int, data@),
            r is Err ==> final(fs)@ == old(fs)@,
            !old(fs)@.mounted.contains(self@.label) ==> r == Err::<(), Error>(
                Error::NoSuchFs(self@.label),
            ),
            old(fs)@.mounted.contains(self@.label) && id_index(old(fs)@.files, self@.id) < 0
                ==> (r matches Err(e) && e matches Error::NoSuchFileWithId(id)
                && id@ == self@.id),
    {
        if !fs.is_mounted(self.fs_label) {
            return Err(Error::NoSuchFs(self.fs_label));
        }
        match fs.find_file_by_id(&self.id) {
            None => Err(Error::NoSuchFileWithId(self.id.duplicate())),
            Some(i) => {
                proof {
                    lemma_id_index(fs@.files, self@.id);
                }
                let content = fs.file_content_at(i);
                let len = content.len();
                let mut nc: Vec<u8> = Vec::new();
                let pre_end = if offset < len {
                    offset
                } else {
                    len
                };
                let mut j: usize = 0;
                while j < pre_end
                    invariant
                        j <= pre_end,
                        pre_end <= content@.len(),
                        nc@ == content@.subrange(0, j as int),
                    decreases pre_end - j,
                {
                    nc.push(content[j]);
                    proof {
                        assert(nc@ =~= content@.subrange(0, j + 1));
                    }
                    j = j + 1;
                }
                let ghost zbase = nc@;
                let mut z: usize = pre_end;
                while z < offset
                    invariant
                        pre_end <= z <= offset,
                        nc@ == zbase + Seq::new((z - pre_end) as nat, |q: int| 0u8),
                    decreases offset - z,
                {
                    nc.push(0);
                    proof {
                        assert(nc@ =~= zbase + Seq::new((z + 1 - pre_end) as nat, |q: int| 0u8));
                    }
                    z = z + 1;
                }
                proof {
                    let c = content@;
                    let off = offset as int;
                    if off <= c.len() {
                        assert(nc@ =~= c.subrange(0, off));
                    } else {
                        assert(nc@ =~= c + Seq::new((off - c.len()) as nat, |q: int| 0u8));
                    }
                }
                let ghost pre_spec = nc@;
                let mut k: usize = 0;
                while k < data.len()
                    invariant
                        k <= data@.len(),
                        nc@ == pre_spec + data@.subrange(0, k as int),
                    decreases data@.len() - k,
                {
                    nc.push(data[k]);
                    proof {
                        assert(nc@ =~= pre_spec + data@.subrange(0, k + 1));
                    }
                    k = k + 1;
                }
                proof {
                    assert(data@.subrange(0, data@.len() as int) =~= data@);
                }
                if offset < len {
                    let tail_start = offset + data.len();
                    if tail_start < len {
                        let ghost mid = nc@;
                        proof {
                            assert(nc@ =~= mid + content@.subrange(
                                tail_start as int,
                                tail_start as int,
                            ));
                        }
                        let mut t: usize = tail_start;
                        while t < len
                            invariant
                                tail_start <= t <= len,
                                len == content@.len(),
                                nc@ == mid + content@.subrange(tail_start as int, t as int),
                            decreases len - t,
                        {
                            nc.push(content[t]);
                            proof {
                                assert(nc@ =~= mid + content@.subrange(
                                    tail_start as int,
                                    t + 1,
                                ));
                            }
                            t = t + 1;
                        }
                    }
                }
                proof {
                    let c = content@;
                    let off = offset as int;
                    let d = data@;
                    if off + d.len() < c.len() {
                        assert(nc@ =~= c.subrange(0, off) + d + c.subrange(
                            off + d.len(),
                            c.len() as int,
                        ));
                    }
                    assert(nc@ =~= write_bytes(c, off, d));
                }
                fs.set_file_content(i, nc);
                proof {
                    assert(fs@.files =~= write_file_next(
                        old(fs)@,
                        self@.id,
                        offset as int,
                        data@,
                    ).files);
                }
                Ok(())
            },
        }
    }

    /// The file's size in bytes.
    pub fn size(&self, fs: &RamFileSystem) -> (r: Result<usize, Error>)
        ensures
            r is Ok <==> fs@.mounted.contains(self@.label) && id_index(fs@.files, self@.id) >= 0,
            r matches Ok(n) ==> n == fs@.files[id_index(fs@.files, self@.id)].content.len(),
            !fs@.mounted.contains(self@.label) ==> r == Err::<usize, Error>(
                Error::NoSuchFs(self@.label),
            ),
            fs@.mounted.contains(self@.label) && id_index(fs@.files, self@.id) < 0 ==> (
            r matches Err(e) && e matches Error::NoSuchFileWithId(id) && id@ == self@.id),
    {
        if !fs.is_mounted(self.fs_label) {
            return Err(Error::NoSuchFs(self.fs_label));
        }
        match fs.find_file_by_id(&self.id) {
            None => Err(Error::NoSuchFileWithId(self.id.duplicate())),
            Some(i) => {
                proof {
                    lemma_id_index(fs@.files, self@.id);
                }
                Ok(fs.file_content_at(i).len())
            },
        }
    }

    /// The identifier the handle names.
    pub fn id(&self) -> (r: &ResourceId)
        ensures
            r@ == self@.id,
    {
        &self.id
    }

    /// The label of the store the handle belongs to.
    pub fn fs(&self) -> (r: FsLabel)
        ensures
            r == self@.label,
    {
        self.fs_label
    }
}

/// Creating a file at a path no file lives at keeps the store sound.
pub proof fn lemma_create_file_preserves_wf(v: RamFileSystemView, p: Seq<char>)
    requires
        store_wf(v),
        path_index(v.files, p) < 0,
    ensures
        store_wf(create_file_next(v, p)),
{
    lemma_path_index(v.files, p);
    let v1 = create_file_next(v, p);
    assert forall|i: int, j: int|
        0 <= i < j < v1.files.len() implies v1.files[i].path != v1.files[j].path by {
        if j < v.files.len() {
            assert(v1.files[i] == v.files[i]);
            assert(v1.files[j] == v.files[j]);
        } else {
            assert(v1.files[i] == v.files[i]);
            assert(v1.files[j].path == p);
        }
    }
}

/// Writing moves no file and renames none, so the store stays sound.
pub proof fn lemma_write_preserves_wf(v: RamFileSystemView, id: Seq<u8>, off: int, d: Seq<u8>)
    requires
        store_wf(v),
        id_index(v.files, id) >= 0,
    ensures
        store_wf(write_file_next(v, id, off, d)),
{
    lemma_id_index(v.files, id);
    let v1 = write_file_next(v, id, off, d);
    assert forall|i: int, j: int|
        0 <= i < j < v1.files.len() implies v1.files[i].path != v1.files[j].path by {
        assert(v1.files[i].path == v.files[i].path);
        assert(v1.files[j].path == v.files[j].path);
    }
}

/// Creating a file and then opening the same path yields handles that agree:
/// the open resolves to the entry the create appended, so both carry the
/// same label and the same identifier.
pub proof fn lemma_create_then_open_agrees(v: RamFileSystemView, p: Seq<char>)
    requires
        path_label_ok(p),
        v.mounted.contains(path_label(p)),
        path_index(v.files, p) < 0,
        parent_exists(v, p),
    ensures
        ({
            let v1 = create_file_next(v, p);
            &&& path_index(v1.files, p) == v1.files.len() - 1
            &&& v1.files[path_index(v1.files, p)].id == fresh_id_seq(v.next_id)
        }),
{
    let v1 = create_file_next(v, p);
    lemma_path_index(v.files, p);
    lemma_path_index(v1.files, p);
    let last = v1.files.len() - 1;
    assert(v1.files[last].path == p);
    if path_index(v1.files, p) < 0 {
        assert(v1.files[last].path != p);
        assert(false);
    }
    let k = path_index(v1.files, p);
    if k < last {
        assert(v1.files[k] == v.files[k]);
        assert(false);
    }
}

/// Writing `d` at an offset within the file and then reading `d.len()` bytes
/// back from the same offset returns exactly `d`.
pub proof fn lemma_write_then_read_round_trip(
    v: RamFileSystemView,
    id: Seq<u8>,
    off: int,
    d: Seq<u8>,
)
    requires
        id_index(v.files, id) >= 0,
        0 <= off <= v.files[id_index(v.files, id)].content.len(),
    ensures
        ({
            let v1 = write_file_next(v, id, off, d);
            &&& id_index(v1.files, id) == id_index(v.files, id)
            &&& read_bytes(v1.files[id_index(v1.files, id)].content, off, d.len() as int) == d
        }),
{
    let k = id_index(v.files, id);
    let v1 = write_file_next(v, id, off, d);
    lemma_id_index(v.files, id);
    lemma_id_index(v1.files, id);
    assert(v1.files[k].id == id);
    if id_index(v1.files, id) < 0 {
        assert(false);
    }
    let k1 = id_index(v1.files, id);
    if k1 < k {
        assert(v1.files[k1] == v.files[k1]);
        assert(false);
    }
    if k < k1 {
        assert(false);
    }
    let c = v.files[k].content;
    let c1 = v1.files[k].content;
    assert(c1 == write_bytes(c, off, d));
    assert(read_bytes(c1, off, d.len() as int) =~= d);
}

} // verus!
