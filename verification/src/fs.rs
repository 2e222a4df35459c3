//! The RAM-backed filesystem: labels, errors, handles, and a verified model
//! of the host-side store that the handles operate against.
//!
//! The host is the system of record for every file and directory; the guest
//! only ever holds `(label, identifier)` handles and round-trips each read,
//! write and size query.  [`RamFileSystem`] is that system of record, written
//! out as an explicit state: the mounted labels, the file entries (full path,
//! identifier, content bytes) and the directory entries.  The handle
//! operations in [`file`] and [`dir`] are specified as transitions of this
//! state, which is what makes properties such as create-then-open agreement
//! and the write/read round trip provable.

pub mod dir;
pub mod error;
pub mod file;
pub mod fslabel;

use vstd::prelude::*;

use crate::fs::error::Error;
use crate::fs::fslabel::{has_colon, label_from_char, label_of_char, FsLabel};
use crate::ident::{ResourceId, ID_LEN};

verus! {

/// Abstract state of one file: its full labeled path, its identifier bytes,
/// and its content.
pub struct FileEntryView {
    pub path: Seq<char>,
    pub id: Seq<u8>,
    pub content: Seq<u8>,
}

/// Abstract state of one directory: its full labeled path and its identifier
/// bytes.
pub struct DirEntryView {
    pub path: Seq<char>,
    pub id: Seq<u8>,
}

/// Abstract state of the whole store.
pub struct RamFileSystemView {
    /// The labels a filesystem is mounted at.
    pub mounted: Seq<FsLabel>,
    /// Every file, in creation order.
    pub files: Seq<FileEntryView>,
    /// Every directory, in creation order.
    pub dirs: Seq<DirEntryView>,
    /// Source of the next identifier the store hands out.
    pub next_id: u64,
}

/// A sound store: no two file entries share a path, and no two directory
/// entries do, so a path resolves to at most one entry.  A fresh store is
/// sound and every transition keeps it so.
pub open spec fn store_wf(v: RamFileSystemView) -> bool {
    &&& forall|i: int, j: int|
        #![trigger v.files[i].path, v.files[j].path]
        0 <= i < j < v.files.len() ==> v.files[i].path != v.files[j].path
    &&& forall|i: int, j: int|
        #![trigger v.dirs[i].path, v.dirs[j].path]
        0 <= i < j < v.dirs.len() ==> v.dirs[i].path != v.dirs[j].path
}

/// A path that carries a label: it has a `:` and its first character names
/// a label.
pub open spec fn path_label_ok(p: Seq<char>) -> bool {
    has_colon(p) && label_of_char(p[0]) is Some
}

/// The label a valid path carries.
pub open spec fn path_label(p: Seq<char>) -> FsLabel {
    label_of_char(p[0])->0
}

/// Index of the first file entry at `path`, or `-1` when none exists.
pub open spec fn path_index(files: Seq<FileEntryView>, path: Seq<char>) -> int
    decreases files.len(),
{
    if files.len() == 0 {
        -1
    } else if files[0].path == path {
        0
    } else {
        let rest = path_index(files.drop_first(), path);
        if rest < 0 {
            -1
        } else {
            rest + 1
        }
    }
}

/// Index of the first file entry whose identifier is `id`, or `-1`.
pub open spec fn id_index(files: Seq<FileEntryView>, id: Seq<u8>) -> int
    decreases files.len(),
{
    if files.len() == 0 {
        -1
    } else if files[0].id == id {
        0
    } else {
        let rest = id_index(files.drop_first(), id);
        if rest < 0 {
            -1
        } else {
            rest + 1
        }
    }
}

/// Index of the first directory entry at `path`, or `-1`.
pub open spec fn dir_index(dirs: Seq<DirEntryView>, path: Seq<char>) -> int
    decreases dirs.len(),
{
    if dirs.len() == 0 {
        -1
    } else if dirs[0].path == path {
        0
    } else {
        let rest = dir_index(dirs.drop_first(), path);
        if rest < 0 {
            -1
        } else {
            rest + 1
        }
    }
}

/// `path_index` returns the first match: the entry at the index carries the
/// path and no earlier one does; a negative answer means no entry does.
pub proof fn lemma_path_index(files: Seq<FileEntryView>, path: Seq<char>)
    ensures
        path_index(files, path) >= 0 ==> {
            let k = path_index(files, path);
            &&& 0 <= k < files.len()
            &&& files[k].path == path
            &&& forall|j: int| 0 <= j < k ==> files[j].path != path
        },
        path_index(files, path) < 0 ==> forall|j: int|
            0 <= j < files.len() ==> files[j].path != path,
    decreases files.len(),
{
    if files.len() > 0 && files[0].path != path {
        lemma_path_index(files.drop_first(), path);
        let rest = path_index(files.drop_first(), path);
        if rest >= 0 {
            assert(files.drop_first()[rest] == files[rest + 1]);
            assert forall|j: int| 0 <= j < rest + 1 implies files[j].path != path by {
                if j > 0 {
                    assert(files.drop_first()[j - 1] == files[j]);
                }
            }
        } else {
            assert forall|j: int| 0 <= j < files.len() implies files[j].path != path by {
                if j > 0 {
                    assert(files.drop_first()[j - 1] == files[j]);
                }
            }
        }
    }
}

/// `id_index` returns the first match, in the same sense.
pub proof fn lemma_id_index(files: Seq<FileEntryView>, id: Seq<u8>)
    ensures
        id_index(files, id) >= 0 ==> {
            let k = id_index(files, id);
            &&& 0 <= k < files.len()
            &&& files[k].id == id
            &&& forall|j: int| 0 <= j < k ==> files[j].id != id
        },
        id_index(files, id) < 0 ==> forall|j: int| 0 <= j < files.len() ==> files[j].id != id,
    decreases files.len(),
{
    if files.len() > 0 && files[0].id != id {
        lemma_id_index(files.drop_first(), id);
        let rest = id_index(files.drop_first(), id);
        if rest >= 0 {
            assert(files.drop_first()[rest] == files[rest + 1]);
            assert forall|j: int| 0 <= j < rest + 1 implies files[j].id != id by {
                if j > 0 {
                    assert(files.drop_first()[j - 1] == files[j]);
                }
            }
        } else {
            assert forall|j: int| 0 <= j < files.len() implies files[j].id != id by {
                if j > 0 {
                    assert(files.drop_first()[j - 1] == files[j]);
                }
            }
        }
    }
}

/// `dir_index` returns the first match, in the same sense.
pub proof fn lemma_dir_index(dirs: Seq<DirEntryView>, path: Seq<char>)
    ensures
        dir_index(dirs, path) >= 0 ==> {
            let k = dir_index(dirs, path);
            &&& 0 <= k < dirs.len()
            &&& dirs[k].path == path
            &&& forall|j: int| 0 <= j < k ==> dirs[j].path != path
        },
        dir_index(dirs, path) < 0 ==> forall|j: int| 0 <= j < dirs.len() ==> dirs[j].path != path,
    decreases dirs.len(),
{
    if dirs.len() > 0 && dirs[0].path != path {
        lemma_dir_index(dirs.drop_first(), path);
        let rest = dir_index(dirs.drop_first(), path);
        if rest >= 0 {
            assert(dirs.drop_first()[rest] == dirs[rest + 1]);
            assert forall|j: int| 0 <= j < rest + 1 implies dirs[j].path != path by {
                if j > 0 {
                    assert(dirs.drop_first()[j - 1] == dirs[j]);
                }
            }
        } else {
            assert forall|j: int| 0 <= j < dirs.len() implies dirs[j].path != path by {
                if j > 0 {
                    assert(dirs.drop_first()[j - 1] == dirs[j]);
                }
            }
        }
    }
}

/// Position of the last `/` in a path, or `-1` when it has none.
pub open spec fn last_slash(p: Seq<char>) -> int
    decreases p.len(),
{
    if p.len() == 0 {
        -1
    } else if p[p.len() - 1] == '/' {
        p.len() - 1
    } else {
        last_slash(p.drop_last())
    }
}

/// The parent of a path: everything before its last `/` (empty for a path
/// with no `/` at all, which therefore has no parent).
pub open spec fn parent_of(p: Seq<char>) -> Seq<char> {
    if last_slash(p) >= 0 {
        p.subrange(0, last_slash(p))
    } else {
        Seq::empty()
    }
}

/// A two-character `<label>:` prefix: the root directory of a mounted store,
/// which exists without ever being created.
pub open spec fn is_root_dir(q: Seq<char>) -> bool {
    q.len() == 2 && q[1] == ':' && label_of_char(q[0]) is Some
}

/// Whether the parent directory of `p` exists in the store.
pub open spec fn parent_exists(v: RamFileSystemView, p: Seq<char>) -> bool {
    is_root_dir(parent_of(p)) || dir_index(v.dirs, parent_of(p)) >= 0
}

/// The bytes a read of `sz` bytes at `off` returns: always exactly `sz`
/// bytes — the file's bytes where the range lies within it, zero wherever
/// it runs past the end.
pub open spec fn read_bytes(c: Seq<u8>, off: int, sz: int) -> Seq<u8> {
    Seq::new(sz as nat, |i: int| if off + i < c.len() { c[off + i] } else { 0u8 })
}

/// The content after writing `d` at offset `off`: bytes before the offset
/// are kept (zero-filled if the file was shorter), `d` replaces what lay at
/// the offset, and anything beyond the written range survives.
pub open spec fn write_bytes(c: Seq<u8>, off: int, d: Seq<u8>) -> Seq<u8> {
    let pre = if off <= c.len() {
        c.subrange(0, off)
    } else {
        c + Seq::new((off - c.len()) as nat, |i: int| 0u8)
    };
    let post = if off + d.len() < c.len() {
        c.subrange(off + d.len(), c.len() as int)
    } else {
        Seq::empty()
    };
    pre + d + post
}

/// The decimal digits (as bytes) of `n`, zero-padded to `width` places; only
/// the last `width` digits are kept.
pub closed spec fn dec_digits(n: nat, width: nat) -> Seq<u8>
    decreases width,
{
    if width == 0 {
        Seq::empty()
    } else {
        dec_digits(n / 10, (width - 1) as nat).push((48 + n % 10) as u8)
    }
}

/// The identifier bytes the store hands out for counter value `n`.
pub closed spec fn fresh_id_seq(n: u64) -> Seq<u8> {
    dec_digits(n as nat, ID_LEN as nat)
}

/// The next counter value after handing out an identifier.  The counter
/// stops one short of its ceiling rather than wrap.
pub open spec fn bump(n: u64) -> u64 {
    if n < u64::MAX {
        (n + 1) as u64
    } else {
        n
    }
}

/// One file entry as the guest-side store holds it.
pub struct FileEntry {
    path: String,
    id: ResourceId,
    content: Vec<u8>,
}

impl View for FileEntry {
    type V = FileEntryView;

    closed spec fn view(&self) -> FileEntryView {
        FileEntryView { path: self.path@, id: self.id@, content: self.content@ }
    }
}

/// One directory entry as the guest-side store holds it.
pub struct DirEntry {
    path: String,
    id: ResourceId,
}

impl View for DirEntry {
    type V = DirEntryView;

    closed spec fn view(&self) -> DirEntryView {
        DirEntryView { path: self.path@, id: self.id@ }
    }
}

/// A RAM-backed store: the model of what the host tracks.
pub struct RamFileSystem {
    mounted: Vec<FsLabel>,
    files: Vec<FileEntry>,
    dirs: Vec<DirEntry>,
    next_id: u64,
}

impl View for RamFileSystem {
    type V = RamFileSystemView;

    closed spec fn view(&self) -> RamFileSystemView {
        RamFileSystemView {
            mounted: self.mounted@,
            files: self.files@.map_values(|e: FileEntry| e@),
            dirs: self.dirs@.map_values(|e: DirEntry| e@),
            next_id: self.next_id,
        }
    }
}

impl RamFileSystem {
    /// An empty store: nothing mounted, no entries.
    pub fn new() -> (r: RamFileSystem)
        ensures
            r@.mounted == Seq::<FsLabel>::empty(),
            r@.files == Seq::<FileEntryView>::empty(),
            r@.dirs == Seq::<DirEntryView>::empty(),
            r@.next_id == 0,
    {
        let r = RamFileSystem { mounted: Vec::new(), files: Vec::new(), dirs: Vec::new(), next_id: 0 };
        proof {
            assert(r@.files =~= Seq::<FileEntryView>::empty());
            assert(r@.dirs =~= Seq::<DirEntryView>::empty());
        }
        r
    }

    /// Whether a filesystem is mounted at `label`.
    pub fn is_mounted(&self, label: FsLabel) -> (r: bool)
        ensures
            r == self@.mounted.contains(label),
    {
        let mut i: usize = 0;
        while i < self.mounted.len()
            invariant
                i <= self.mounted.len(),
                forall|j: int| 0 <= j < i ==> self.mounted@[j] != label,
            decreases self.mounted.len() - i,
        {
            if self.mounted[i] == label {
                proof {
                    assert(self@.mounted[i as int] == label);
                }
                return true;
            }
            i = i + 1;
        }
        false
    }

    /// Mount a fresh RAM filesystem at `label`.
    ///
    /// Fails, and leaves the store unchanged, exactly when a filesystem is
    /// already mounted there.
    pub fn init(&mut self, label: FsLabel) -> (r: Result<(), Error>)
        ensures
            r is Ok <==> !old(self)@.mounted.contains(label),
            r is Ok ==> final(self)@ == (RamFileSystemView {
                mounted: old(self)@.mounted.push(label),
                ..old(self)@
            }),
            r is Err ==> final(self)@ == old(self)@ && r == Err::<(), Error>(
                Error::FsAlreadyExists(label),
            ),
    {
        if self.is_mounted(label) {
            return Err(Error::FsAlreadyExists(label));
        }
        self.mounted.push(label);
        proof {
            assert(self@.files =~= old(self)@.files);
            assert(self@.dirs =~= old(self)@.dirs);
        }
        Ok(())
    }

    /// Index of the first file entry at `path`, if any.
    pub(crate) fn find_file_by_path(&self, path: &String) -> (r: Option<usize>)
        ensures
            r matches Some(i) ==> path_index(self@.files, path@) == i,
            r is None ==> path_index(self@.files, path@) < 0,
    {
        let mut i: usize = 0;
        while i < self.files.len()
            invariant
                i <= self.files.len(),
                forall|j: int| 0 <= j < i ==> self@.files[j].path != path@,
            decreases self.files.len() - i,
        {
            if self.files[i].path == *path {
                proof {
                    assert(self@.files[i as int].path == path@);
                    lemma_path_index(self@.files, path@);
                }
                return Some(i);
            }
            i = i + 1;
        }
        proof {
            lemma_path_index(self@.files, path@);
        }
        None
    }

    /// Index of the first file entry carrying `id`, if any.
    pub(crate) fn find_file_by_id(&self, id: &ResourceId) -> (r: Option<usize>)
        ensures
            r matches Some(i) ==> id_index(self@.files, id@) == i,
            r is None ==> id_index(self@.files, id@) < 0,
    {
        let mut i: usize = 0;
        while i < self.files.len()
            invariant
                i <= self.files.len(),
                forall|j: int| 0 <= j < i ==> self@.files[j].id != id@,
            decreases self.files.len() - i,
        {
            if self.files[i].id == *id {
                proof {
                    assert(self@.files[i as int].id == id@);
                    lemma_id_index(self@.files, id@);
                }
                return Some(i);
            }
            i = i + 1;
        }
        proof {
            lemma_id_index(self@.files, id@);
        }
        None
    }

    /// Mint a fresh identifier from the store's counter and advance it.
    pub(crate) fn fresh_id(&mut self) -> (r: ResourceId)
        ensures
            r@ == fresh_id_seq(old(self)@.next_id),
            r.wf(),
            final(self)@ == (RamFileSystemView { next_id: bump(old(self)@.next_id), ..old(self)@ }),
    {
        let id = render_id(self.next_id);
        if self.next_id < u64::MAX {
            self.next_id = self.next_id + 1;
        }
        proof {
            assert(self@.files =~= old(self)@.files);
            assert(self@.dirs =~= old(self)@.dirs);
        }
        id
    }

    /// Append a file entry.
    pub(crate) fn push_file(&mut self, path: String, id: ResourceId, content: Vec<u8>)
        ensures
            final(self)@ == (RamFileSystemView {
                files: old(self)@.files.push(FileEntryView { path: path@, id: id@, content: content@ }),
                ..old(self)@
            }),
    {
        let ghost entry_view = FileEntryView { path: path@, id: id@, content: content@ };
        self.files.push(FileEntry { path, id, content });
        proof {
            assert(self@.files =~= old(self)@.files.push(entry_view));
            assert(self@.dirs =~= old(self)@.dirs);
        }
    }

    /// Append a directory entry.
    pub(crate) fn push_dir(&mut self, path: String, id: ResourceId)
        ensures
            final(self)@ == (RamFileSystemView {
                dirs: old(self)@.dirs.push(DirEntryView { path: path@, id: id@ }),
                ..old(self)@
            }),
    {
        let ghost entry_view = DirEntryView { path: path@, id: id@ };
        self.dirs.push(DirEntry { path, id });
        proof {
            assert(self@.dirs =~= old(self)@.dirs.push(entry_view));
            assert(self@.files =~= old(self)@.files);
        }
    }

    /// The identifier of the file entry at index `i`.
    pub(crate) fn file_id_at(&self, i: usize) -> (r: &ResourceId)
        requires
            i < self@.files.len(),
        ensures
            r@ == self@.files[i as int].id,
    {
        &self.files[i].id
    }

    /// The content of the file entry at index `i`.
    pub(crate) fn file_content_at(&self, i: usize) -> (r: &Vec<u8>)
        requires
            i < self@.files.len(),
        ensures
            r@ == self@.files[i as int].content,
    {
        &self.files[i].content
    }

    /// The identifier of the directory entry at index `i`.
    pub(crate) fn dir_id_at(&self, i: usize) -> (r: &ResourceId)
        requires
            i < self@.dirs.len(),
        ensures
            r@ == self@.dirs[i as int].id,
    {
        &self.dirs[i].id
    }

    /// Replace the content of the file entry at index `i`.
    pub(crate) fn set_file_content(&mut self, i: usize, content: Vec<u8>)
        requires
            i < old(self)@.files.len(),
        ensures
            final(self)@ == (RamFileSystemView {
                files: old(self)@.files.update(
                    i as int,
                    FileEntryView { content: content@, ..old(self)@.files[i as int] },
                ),
                ..old(self)@
            }),
    {
        let ghost target = FileEntryView { content: content@, ..old(self)@.files[i as int] };
        let mut entry = self.files.remove(i);
        entry.content = content;
        self.files.insert(i, entry);
        proof {
            assert(self@.files =~= old(self)@.files.update(i as int, target));
            assert(self@.dirs =~= old(self)@.dirs);
        }
    }

    /// Index of the first directory entry at `path`, if any.
    pub(crate) fn find_dir_by_path(&self, path: &String) -> (r: Option<usize>)
        ensures
            r matches Some(i) ==> dir_index(self@.dirs, path@) == i,
            r is None ==> dir_index(self@.dirs, path@) < 0,
    {
        let mut i: usize = 0;
        while i < self.dirs.len()
            invariant
                i <= self.dirs.len(),
                forall|j: int| 0 <= j < i ==> self@.dirs[j].path != path@,
            decreases self.dirs.len() - i,
        {
            if self.dirs[i].path == *path {
                proof {
                    assert(self@.dirs[i as int].path == path@);
                    lemma_dir_index(self@.dirs, path@);
                }
                return Some(i);
            }
            i = i + 1;
        }
        proof {
            lemma_dir_index(self@.dirs, path@);
        }
        None
    }
}

/// Position of the last `/` in the string, if it has one.
pub fn find_last_slash(path: &str) -> (r: Option<usize>)
    ensures
        r matches Some(i) ==> i < path@.len() && last_slash(path@) == i,
        r is None ==> last_slash(path@) < 0,
{
    let n = path.unicode_len();
    proof {
        assert(path@.subrange(0, n as int) =~= path@);
    }
    let mut i: usize = n;
    while i > 0
        invariant
            i <= n,
            n == path@.len(),
            last_slash(path@) == last_slash(path@.subrange(0, i as int)),
        decreases i,
    {
        if path.get_char(i - 1) == '/' {
            proof {
                let p = path@.subrange(0, i as int);
                assert(p[p.len() - 1] == path@[i - 1]);
            }
            return Some(i - 1);
        }
        proof {
            let p = path@.subrange(0, i as int);
            assert(p[p.len() - 1] == path@[i - 1]);
            assert(p.drop_last() =~= path@.subrange(0, (i - 1) as int));
        }
        i = i - 1;
    }
    proof {
        assert(path@.subrange(0, 0) =~= Seq::<char>::empty());
    }
    None
}

impl RamFileSystem {
    /// Whether the parent directory of `path` exists in this store: either
    /// the root `<label>:` prefix, or a directory that was created.
    pub(crate) fn has_parent(&self, path: &str) -> (r: bool)
        ensures
            r == parent_exists(self@, path@),
    {
        let par: String = match find_last_slash(path) {
            Some(idx) => path.substring_char(0, idx).to_owned(),
            None => String::new(),
        };
        proof {
            assert(par@ == parent_of(path@));
        }
        let n = par.as_str().unicode_len();
        if n == 2 && par.as_str().get_char(1) == ':' {
            if label_from_char(par.as_str().get_char(0)).is_some() {
                return true;
            }
        }
        match self.find_dir_by_path(&par) {
            Some(_) => true,
            None => false,
        }
    }
}

/// Render the store's counter as a fresh identifier: its decimal digits,
/// zero-padded to the identifier width.
pub(crate) fn render_id(n: u64) -> (r: ResourceId)
    ensures
        r@ == fresh_id_seq(n),
        r.wf(),
{
    let mut rev: Vec<u8> = Vec::new();
    let mut m: u64 = n;
    let mut k: usize = 0;
    while k < ID_LEN
        invariant
            k <= ID_LEN,
            rev@.len() == k,
            dec_digits(n as nat, ID_LEN as nat) == dec_digits(m as nat, (ID_LEN - k) as nat)
                + rev@.reverse(),
            forall|i: int| 0 <= i < rev@.len() ==> 48 <= #[trigger] rev@[i] <= 57,
        decreases ID_LEN - k,
    {
        let d: u8 = (m % 10) as u8 + 48;
        proof {
            let w = (ID_LEN - k) as nat;
            assert(dec_digits(m as nat, w) == dec_digits(
                m as nat / 10,
                (w - 1) as nat,
            ).push((48 + m as nat % 10) as u8));
            assert(rev@.push(d).reverse() =~= seq![d] + rev@.reverse());
            assert(dec_digits(m as nat / 10, (w - 1) as nat) + rev@.push(d).reverse()
                =~= dec_digits(m as nat, w) + rev@.reverse());
        }
        rev.push(d);
        m = m / 10;
        k = k + 1;
    }
    proof {
        assert(dec_digits(m as nat, 0nat) =~= Seq::<u8>::empty());
        assert(dec_digits(n as nat, ID_LEN as nat) =~= rev@.reverse());
    }
    let mut bytes: Vec<u8> = Vec::new();
    let mut i: usize = 0;
    while i < ID_LEN
        invariant
            i <= ID_LEN,
            rev@.len() == ID_LEN,
            bytes@.len() == i,
            forall|j: int| 0 <= j < i ==> bytes@[j] == rev@[ID_LEN - 1 - j],
            forall|j: int| 0 <= j < rev@.len() ==> 48 <= #[trigger] rev@[j] <= 57,
        decreases ID_LEN - i,
    {
        bytes.push(rev[ID_LEN - 1 - i]);
        i = i + 1;
    }
    proof {
        assert(bytes@ =~= rev@.reverse());
    }
    ResourceId::from_raw_bytes(bytes)
}

} // verus!
