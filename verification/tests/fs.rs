use hapi::fs::dir::Directory;
use hapi::fs::error::{
    dir_create_outcome, dir_get_outcome, file_create_outcome, file_get_outcome,
    file_read_outcome, file_size_outcome, file_write_outcome, ramfs_init_outcome, Error,
};
use hapi::fs::file::File;
use hapi::fs::fslabel::FsLabel;
use hapi::fs::RamFileSystem;
use hapi::ident::{decode_fixed, ResourceId};

fn mounted() -> RamFileSystem {
    let mut fs = RamFileSystem::new();
    fs.init(FsLabel::A).unwrap();
    fs
}

fn some_id() -> ResourceId {
    let mut buf = vec![b'x'; 36];
    buf.push(0);
    decode_fixed(&buf).unwrap()
}

#[test]
fn init_mounts_once() {
    let mut fs = RamFileSystem::new();
    assert!(fs.init(FsLabel::A).is_ok());
    assert!(matches!(fs.init(FsLabel::A), Err(Error::FsAlreadyExists(FsLabel::A))));
    assert!(fs.init(FsLabel::B).is_ok());
}

#[test]
fn create_then_open_agree() {
    let mut fs = mounted();
    let created = File::create(&mut fs, "a:/hello.txt").unwrap();
    let opened = File::open(&fs, "a:/hello.txt").unwrap();
    assert_eq!(created.fs(), opened.fs());
    assert!(created.id() == opened.id());
}

#[test]
fn create_twice_fails() {
    let mut fs = mounted();
    File::create(&mut fs, "a:/hello.txt").unwrap();
    let e = File::create(&mut fs, "a:/hello.txt").unwrap_err();
    assert!(matches!(e, Error::FileExists(p) if p == "a:/hello.txt"));
}

#[test]
fn open_missing_file_fails() {
    let fs = mounted();
    let e = File::open(&fs, "a:/nope.txt").unwrap_err();
    assert!(matches!(e, Error::NoSuchFile(p) if p == "a:/nope.txt"));
}

#[test]
fn create_on_unmounted_label_fails() {
    let mut fs = mounted();
    let e = File::create(&mut fs, "b:/hello.txt").unwrap_err();
    assert!(matches!(e, Error::NoSuchFs(FsLabel::B)));
}

#[test]
fn create_without_parent_fails_then_succeeds() {
    let mut fs = mounted();
    let e = File::create(&mut fs, "a:/sub/f.txt").unwrap_err();
    assert!(matches!(e, Error::NoSuchDirectory(p) if p == "a:/sub/f.txt"));
    Directory::create(&mut fs, "a:/sub").unwrap();
    assert!(File::create(&mut fs, "a:/sub/f.txt").is_ok());
}

#[test]
fn create_rejects_unlabeled_path() {
    let mut fs = mounted();
    assert!(matches!(File::create(&mut fs, "hello.txt"), Err(Error::NoFsLabel(_))));
    assert!(matches!(File::create(&mut fs, "7:/x"), Err(Error::NotAFsLabel(_))));
}

#[test]
fn dir_create_then_open_agree() {
    let mut fs = mounted();
    let created = Directory::create(&mut fs, "a:/docs").unwrap();
    let opened = Directory::open(&fs, "a:/docs").unwrap();
    assert_eq!(created.fs(), opened.fs());
    assert!(created.id() == opened.id());
}

#[test]
fn dir_create_twice_fails() {
    let mut fs = mounted();
    Directory::create(&mut fs, "a:/docs").unwrap();
    let e = Directory::create(&mut fs, "a:/docs").unwrap_err();
    assert!(matches!(e, Error::DirExists(p) if p == "a:/docs"));
}

#[test]
fn nested_dir_needs_parent() {
    let mut fs = mounted();
    let e = Directory::create(&mut fs, "a:/x/y").unwrap_err();
    assert!(matches!(e, Error::NoSuchDirectory(_)));
    Directory::create(&mut fs, "a:/x").unwrap();
    assert!(Directory::create(&mut fs, "a:/x/y").is_ok());
}

#[test]
fn write_then_read_round_trips() {
    let mut fs = mounted();
    let f = File::create(&mut fs, "a:/data.bin").unwrap();
    f.write(&mut fs, 0, b"hello").unwrap();
    assert_eq!(f.read(&fs, 0, 5).unwrap(), b"hello");
    assert_eq!(f.size(&fs).unwrap(), 5);
}

#[test]
fn write_at_offset_round_trips() {
    let mut fs = mounted();
    let f = File::create(&mut fs, "a:/data.bin").unwrap();
    f.write(&mut fs, 0, b"hello").unwrap();
    f.write(&mut fs, 2, b"XY").unwrap();
    assert_eq!(f.read(&fs, 2, 2).unwrap(), b"XY");
    assert_eq!(f.read_all(&fs).unwrap(), b"heXYo");
}

#[test]
fn read_zero_fills_past_end_of_file() {
    let mut fs = mounted();
    let f = File::create(&mut fs, "a:/data.bin").unwrap();
    f.write(&mut fs, 0, b"abc").unwrap();
    assert_eq!(f.read(&fs, 1, 4).unwrap(), vec![b'b', b'c', 0, 0]);
    assert_eq!(f.read(&fs, 3, 4).unwrap(), vec![0, 0, 0, 0]);
    assert_eq!(f.read(&fs, 9, 2).unwrap(), vec![0, 0]);
    assert_eq!(f.read(&fs, 0, 0).unwrap(), b"");
}

#[test]
fn read_always_returns_requested_length() {
    let fs2 = {
        let mut fs = mounted();
        File::create(&mut fs, "a:/empty").unwrap();
        fs
    };
    let f = File::open(&fs2, "a:/empty").unwrap();
    assert_eq!(f.size(&fs2).unwrap(), 0);
    assert_eq!(f.read(&fs2, 0, 5).unwrap(), vec![0, 0, 0, 0, 0]);
}

#[test]
fn write_past_end_zero_fills() {
    let mut fs = mounted();
    let f = File::create(&mut fs, "a:/data.bin").unwrap();
    f.write(&mut fs, 0, b"hello").unwrap();
    f.write(&mut fs, 8, b"ab").unwrap();
    assert_eq!(f.size(&fs).unwrap(), 10);
    assert_eq!(f.read(&fs, 5, 3).unwrap(), vec![0, 0, 0]);
    assert_eq!(f.read(&fs, 8, 2).unwrap(), b"ab");
}

#[test]
fn handle_against_wrong_store() {
    let mut fs = mounted();
    let f = File::create(&mut fs, "a:/data.bin").unwrap();

    let bare = RamFileSystem::new();
    assert!(matches!(f.read(&bare, 0, 1), Err(Error::NoSuchFs(FsLabel::A))));

    let mut other = mounted();
    assert!(matches!(f.read(&other, 0, 1), Err(Error::NoSuchFileWithId(_))));
    assert!(matches!(f.write(&mut other, 0, b"x"), Err(Error::NoSuchFileWithId(_))));
    assert!(matches!(f.size(&other), Err(Error::NoSuchFileWithId(_))));
}

#[test]
fn file_create_statuses() {
    assert!(file_create_outcome(0, "a:/f".to_string()).is_ok());
    assert!(matches!(
        file_create_outcome(-1, "a:/f".to_string()),
        Err(Error::NoSuchDirectory(p)) if p == "a:/f"
    ));
    assert!(matches!(
        file_create_outcome(-2, "a:/f".to_string()),
        Err(Error::FileExists(p)) if p == "a:/f"
    ));
    assert!(matches!(
        file_create_outcome(-3, "a:/f".to_string()),
        Err(Error::NoSuchDirectory(_))
    ));
}

#[test]
fn dir_create_statuses() {
    assert!(dir_create_outcome(0, "a:/d".to_string()).is_ok());
    assert!(matches!(
        dir_create_outcome(-2, "a:/d".to_string()),
        Err(Error::DirExists(p)) if p == "a:/d"
    ));
    assert!(matches!(
        dir_create_outcome(-1, "a:/d".to_string()),
        Err(Error::NoSuchDirectory(_))
    ));
}

#[test]
fn lookup_statuses() {
    assert!(file_get_outcome(0, "a:/f".to_string()).is_ok());
    assert!(matches!(
        file_get_outcome(-1, "a:/f".to_string()),
        Err(Error::NoSuchFile(p)) if p == "a:/f"
    ));
    assert!(dir_get_outcome(0, "a:/d".to_string(), FsLabel::A).is_ok());
    assert!(matches!(
        dir_get_outcome(-2, "a:/d".to_string(), FsLabel::A),
        Err(Error::NoSuchFs(FsLabel::A))
    ));
    assert!(matches!(
        dir_get_outcome(-1, "a:/d".to_string(), FsLabel::A),
        Err(Error::NoSuchDirectory(_))
    ));
}

#[test]
fn read_write_size_statuses() {
    assert!(file_read_outcome(0, FsLabel::A, some_id()).is_ok());
    assert!(matches!(
        file_read_outcome(-2, FsLabel::A, some_id()),
        Err(Error::NoSuchFs(FsLabel::A))
    ));
    assert!(matches!(
        file_read_outcome(-1, FsLabel::A, some_id()),
        Err(Error::NoSuchFileWithId(_))
    ));

    assert!(file_write_outcome(0, FsLabel::A, some_id()).is_ok());
    assert!(matches!(
        file_write_outcome(-1, FsLabel::A, some_id()),
        Err(Error::NoSuchFileWithId(_))
    ));
    assert!(matches!(
        file_write_outcome(-2, FsLabel::A, some_id()),
        Err(Error::NoSuchFs(FsLabel::A))
    ));
    assert!(matches!(
        file_write_outcome(-3, FsLabel::A, some_id()),
        Err(Error::NotEnoughSpace(FsLabel::A))
    ));
    assert!(matches!(
        file_write_outcome(-4, FsLabel::A, some_id()),
        Err(Error::HostCallFailed(-4))
    ));

    assert_eq!(file_size_outcome(42, FsLabel::A, some_id()).unwrap(), 42);
    assert!(matches!(
        file_size_outcome(-2, FsLabel::A, some_id()),
        Err(Error::NoSuchFs(FsLabel::A))
    ));
    assert!(matches!(
        file_size_outcome(-1, FsLabel::A, some_id()),
        Err(Error::NoSuchFileWithId(_))
    ));
}

#[test]
fn ramfs_init_statuses() {
    assert!(ramfs_init_outcome(0, FsLabel::A).is_ok());
    assert!(matches!(
        ramfs_init_outcome(-1, FsLabel::A),
        Err(Error::FsAlreadyExists(FsLabel::A))
    ));
    assert!(matches!(
        ramfs_init_outcome(-2, FsLabel::B),
        Err(Error::FsAlreadyExists(FsLabel::B))
    ));
}

#[test]
fn error_messages() {
    assert_eq!(
        Error::NoSuchFile("a:/x".to_string()).message(),
        "No such file: a:/x"
    );
    assert_eq!(
        Error::NoFsLabel("x".to_string()).message(),
        "The path: x contains no fs label"
    );
    assert_eq!(
        Error::NotAFsLabel("7".to_string()).message(),
        "7 is not a valid fs label"
    );
    assert_eq!(Error::NoSuchFs(FsLabel::A).message(), "No fs mounted at: A");
    assert_eq!(
        Error::NotEnoughSpace(FsLabel::Q).message(),
        "No space left on device: Q"
    );
    assert_eq!(
        Error::FileExists("a:/x".to_string()).message(),
        "File already exists at: a:/x"
    );
    assert_eq!(
        Error::DirExists("a:/d".to_string()).message(),
        "Dir already exists at: a:/d"
    );
    assert_eq!(
        Error::NoSuchDirectory("a:/d".to_string()).message(),
        "No such directory: a:/d"
    );
    assert_eq!(
        Error::NoSuchFileWithId(some_id()).message(),
        "No such file with the given id"
    );
    assert_eq!(
        Error::FsAlreadyExists(FsLabel::C).message(),
        "Could not mount file system. A file system is already mounted at: C"
    );
    assert_eq!(
        Error::HostCallFailed(-4).message(),
        "Host call failed with an unmapped status"
    );
}

#[test]
fn handles_clone_as_values() {
    let mut fs = mounted();
    let f = File::create(&mut fs, "a:/data.bin").unwrap();
    let g = f.clone();
    assert_eq!(f.fs(), g.fs());
    assert!(f.id() == g.id());
    let d = Directory::create(&mut fs, "a:/docs").unwrap();
    let e = d.clone();
    assert_eq!(d.fs(), e.fs());
    assert!(d.id() == e.id());
    f.write(&mut fs, 0, b"via f").unwrap();
    assert_eq!(g.read_all(&fs).unwrap(), b"via f");
}

#[test]
fn fresh_ids_count_up() {
    let mut fs = mounted();
    let a = File::create(&mut fs, "a:/one").unwrap();
    let b = File::create(&mut fs, "a:/two").unwrap();
    assert_eq!(a.id().bytes().as_slice(), &[b'0'; 36][..]);
    let mut expect = vec![b'0'; 36];
    expect[35] = b'1';
    assert_eq!(b.id().bytes().as_slice(), &expect[..]);
    assert!(a.id() != b.id());
}
