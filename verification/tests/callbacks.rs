use nix::errno::Errno;
use rust_bindgen_fuse::filesystem::{
    Filesystem, GetfattrRetVal, OpenRetVal, ReadRetVal, ReaddirRetVal,
};
use rust_bindgen_fuse::flags::{FuseFileInfo, NativeFileInfo, OpenFlags};
use rust_bindgen_fuse::guard::ThunkOutcome;
use rust_bindgen_fuse::mode::{FilePermissions, FileType, TypedModeBuilder};
use rust_bindgen_fuse::mount::fuse_init;
use rust_bindgen_fuse::registry::Registry;
use rust_bindgen_fuse::stat::Stat;
use rust_bindgen_fuse::trampoline::{getattr, open, read, readdir, RawPointer};
use std::sync::Arc;

const HELLO_CONTENT: &str = "Hello world!\n";
const KEY: u64 = 42;
const NAME: &str = "HelloFS";

struct HelloFS;

fn status(file_type: FileType, permissions: u32, n_link: u64, size: i64) -> Stat {
    Stat::new_simple(
        TypedModeBuilder::builder()
            .file_type(file_type)
            .permissions(FilePermissions::new(permissions).unwrap())
            .build(),
        n_link,
        size,
    )
}

impl Filesystem for HelloFS {
    fn getattr(&self, path: &str) -> Result<GetfattrRetVal, Errno> {
        match path {
            "/" => Ok(GetfattrRetVal { stat: status(FileType::Directory, 0o555, 2, 0) }),
            "/hello.txt" => Ok(GetfattrRetVal {
                stat: status(FileType::RegularFile, 0o444, 1, HELLO_CONTENT.len() as i64),
            }),
            "/boom" => panic!("user code failed"),
            _ => Err(Errno::ENOENT),
        }
    }

    fn readdir(&self, path: &str) -> Result<ReaddirRetVal, Errno> {
        match path {
            "/" => Ok(ReaddirRetVal { entries: vec![String::from("hello.txt")] }),
            "/many" => Ok(ReaddirRetVal {
                entries: vec![String::from("a"), String::from("b"), String::from("c")],
            }),
            "/bad" => Ok(ReaddirRetVal { entries: vec![String::from("ok"), String::from("n\0l")] }),
            _ => Err(Errno::ENOENT),
        }
    }

    fn open(&self, path: &str, _flags: OpenFlags) -> Result<OpenRetVal, Errno> {
        if path == "/hello.txt" {
            Ok(OpenRetVal {})
        } else {
            Err(Errno::ENOENT)
        }
    }

    fn read(&self, path: &str, max_bytes: usize, offset: u64) -> Result<ReadRetVal, Errno> {
        let bytes = HELLO_CONTENT.as_bytes();
        match path {
            "/hello.txt" => {
                let start = (offset as usize).min(bytes.len());
                let end = (start + max_bytes).min(bytes.len());
                Ok(ReadRetVal { content: bytes[start..end].to_vec() })
            }
            "/long" => Ok(ReadRetVal { content: vec![7; max_bytes + 1] }),
            _ => Err(Errno::ENOENT),
        }
    }
}

fn mounted() -> Registry<Arc<HelloFS>> {
    let mut registry: Registry<Arc<HelloFS>> = Registry::new();
    let args = vec![String::from("hello")];
    fuse_init(&mut registry, KEY, Arc::new(HelloFS), b"/mnt", &args).unwrap();
    registry
}

fn pointer(address: usize, alignment: usize) -> RawPointer {
    RawPointer { address, alignment }
}

fn good() -> RawPointer {
    pointer(0x7000, 8)
}

fn info(flags: i32) -> FuseFileInfo {
    FuseFileInfo::new(NativeFileInfo { flags, fh: 0, lock_owner: 0, poll_events: 0 })
}

fn query(registry: &mut Registry<Arc<HelloFS>>, path: &[u8]) -> (i32, Option<Stat>) {
    let (call, fs) = match getattr(registry, KEY, NAME, pointer(0x10, 1), good(), good(), path) {
        Ok((call, fs)) => (call, fs.clone()),
        Err(code) => return (code, None),
    };
    let outcome = ThunkOutcome::Returned(call.invoke(&*fs));
    let reply = call.complete(registry, NAME, outcome);
    (reply.code, reply.stat.map(|stat| Stat::from_native(stat).unwrap()))
}

fn list(registry: &mut Registry<Arc<HelloFS>>, path: &[u8], answers: &[i32]) -> (i32, Vec<Vec<u8>>) {
    let (call, fs) =
        match readdir(registry, KEY, NAME, pointer(0x10, 1), good(), good(), good(), path) {
            Ok((call, fs)) => (call, fs.clone()),
            Err(code) => return (code, Vec::new()),
        };
    let outcome = ThunkOutcome::Returned(call.invoke(&*fs));
    let mut fill = match call.complete(registry, NAME, outcome) {
        Ok(fill) => fill,
        Err(code) => return (code, Vec::new()),
    };
    let mut seen = Vec::new();
    let mut round = 0;
    while !fill.finished() {
        let name = fill.next_name().unwrap().clone();
        seen.push(name);
        fill.record(answers.get(round).copied().unwrap_or(0));
        round += 1;
    }
    assert!(fill.next_name().is_none());
    (fill.code(), seen)
}

fn fetch(
    registry: &mut Registry<Arc<HelloFS>>,
    path: &[u8],
    size: usize,
    offset: i64,
) -> (i32, Vec<u8>) {
    let entered = read(registry, KEY, NAME, pointer(0x10, 1), good(), size, offset, good(), path);
    let (call, fs) = match entered {
        Ok((call, fs)) => (call, fs.clone()),
        Err(code) => return (code, Vec::new()),
    };
    assert_eq!(call.limit(), size);
    let outcome = ThunkOutcome::Returned(call.invoke(&*fs));
    let reply = call.complete(registry, NAME, outcome);
    (reply.code, reply.bytes)
}

fn open_with(registry: &mut Registry<Arc<HelloFS>>, path: &[u8], flags: i32) -> i32 {
    let entered = open(registry, KEY, NAME, pointer(0x10, 1), good(), path, info(flags));
    let (call, fs) = match entered {
        Ok((call, fs)) => (call, fs.clone()),
        Err(code) => return code,
    };
    assert_eq!(call.open_flags().bits(), flags);
    let outcome = ThunkOutcome::Returned(call.invoke(&*fs));
    call.complete(registry, NAME, outcome)
}

#[test]
fn hello_filesystem_end_to_end() {
    let mut registry = mounted();

    let (code, stat) = query(&mut registry, b"/\0");
    assert_eq!(code, 0);
    let stat = stat.unwrap();
    assert_eq!(stat.mode().file_type, FileType::Directory);
    assert_eq!(stat.inner().st_nlink, 2);

    let (code, stat) = query(&mut registry, b"/hello.txt\0");
    assert_eq!(code, 0);
    let stat = stat.unwrap();
    assert_eq!(stat.mode().file_type, FileType::RegularFile);
    assert_eq!(stat.inner().st_size, 13);
    assert_eq!(stat.inner().st_mode, 0o100444);

    let (code, names) = list(&mut registry, b"/\0", &[]);
    assert_eq!(code, 0);
    assert_eq!(names, vec![b"hello.txt\0".to_vec()]);

    let (code, bytes) = fetch(&mut registry, b"/hello.txt\0", 5, 6);
    assert_eq!(code, 5);
    assert_eq!(bytes, b"world".to_vec());

    let (code, bytes) = fetch(&mut registry, b"/hello.txt\0", 5, 13);
    assert_eq!(code, 0);
    assert!(bytes.is_empty());
    let (code, bytes) = fetch(&mut registry, b"/hello.txt\0", 5, 4000);
    assert_eq!(code, 0);
    assert!(bytes.is_empty());

    let (code, stat) = query(&mut registry, b"/missing\0");
    assert_eq!(code, -2);
    assert_eq!(code, -nix::libc::ENOENT);
    assert!(stat.is_none());
}

#[test]
fn pointer_validity() {
    assert!(pointer(8, 8).is_valid());
    assert!(pointer(0x7001, 1).is_valid());
    assert!(!pointer(0, 8).is_valid());
    assert!(!pointer(0x7001, 8).is_valid());
    assert!(!pointer(0x7004, 8).is_valid());
    assert!(pointer(0x7004, 4).is_valid());
    assert!(!pointer(16, 0).is_valid());
}

#[test]
fn getattr_refuses_bad_pointers_before_anything_else() {
    let registry: Registry<Arc<HelloFS>> = Registry::new();
    let null = pointer(0, 8);
    let odd = pointer(0x7003, 8);
    let path = b"/hello.txt\0";
    assert_eq!(getattr(&registry, KEY, NAME, null, good(), good(), path).err(), Some(-22));
    assert_eq!(getattr(&registry, KEY, NAME, good(), null, good(), path).err(), Some(-22));
    assert_eq!(getattr(&registry, KEY, NAME, good(), good(), null, path).err(), Some(-22));
    assert_eq!(getattr(&registry, KEY, NAME, good(), odd, good(), path).err(), Some(-22));
    assert_eq!(getattr(&registry, KEY, NAME, good(), good(), odd, path).err(), Some(-22));
}

#[test]
fn bad_path_is_refused_before_the_lookup() {
    let empty: Registry<Arc<HelloFS>> = Registry::new();
    assert_eq!(getattr(&empty, KEY, NAME, good(), good(), good(), b"/\xff\0").err(), Some(-22));
    assert_eq!(getattr(&empty, KEY, NAME, good(), good(), good(), b"/open").err(), Some(-22));
    assert_eq!(getattr(&empty, KEY, NAME, good(), good(), good(), b"/\0").err(), Some(-131));
}

#[test]
fn unregistered_type_is_not_recoverable() {
    let registry = mounted();
    assert_eq!(getattr(&registry, KEY + 1, NAME, good(), good(), good(), b"/\0").err(), Some(-131));
    assert_eq!(
        readdir(&registry, KEY + 1, NAME, good(), good(), good(), good(), b"/\0").err(),
        Some(-131)
    );
    assert_eq!(open(&registry, KEY + 1, NAME, good(), good(), b"/\0", info(0)).err(), Some(-131));
    assert_eq!(
        read(&registry, KEY + 1, NAME, good(), good(), 5, 0, good(), b"/\0").err(),
        Some(-131)
    );
}

#[test]
fn readdir_refuses_a_null_filler() {
    let registry = mounted();
    let null = pointer(0, 1);
    assert_eq!(
        readdir(&registry, KEY, NAME, good(), good(), null, good(), b"/\0").err(),
        Some(-22)
    );
    assert_eq!(
        readdir(&registry, KEY, NAME, good(), null, good(), good(), b"/\0").err(),
        Some(-22)
    );
}

#[test]
fn read_refuses_a_negative_offset() {
    let registry = mounted();
    assert_eq!(
        read(&registry, KEY, NAME, good(), good(), 5, -1, good(), b"/hello.txt\0").err(),
        Some(-22)
    );
    assert_eq!(
        read(&registry, KEY, NAME, good(), pointer(0, 1), 5, 0, good(), b"/hello.txt\0").err(),
        Some(-22)
    );
}

#[test]
fn read_call_carries_its_arguments() {
    let registry = mounted();
    let (call, _) =
        read(&registry, KEY, NAME, good(), good(), 4096, 17, good(), b"/hello.txt\0").unwrap();
    assert_eq!(call.path_str(), "/hello.txt");
    assert_eq!(call.limit(), 4096);
    assert_eq!(call.start(), 17);
    let (big, _) =
        read(&registry, KEY, NAME, good(), good(), usize::MAX, 0, good(), b"/hello.txt\0").unwrap();
    assert_eq!(big.limit(), 0x7fff_ffff);
}

#[test]
fn read_within_bounds_copies_exactly() {
    let mut registry = mounted();
    let (code, bytes) = fetch(&mut registry, b"/hello.txt\0", 13, 0);
    assert_eq!(code, 13);
    assert_eq!(bytes, HELLO_CONTENT.as_bytes().to_vec());
    let (code, bytes) = fetch(&mut registry, b"/hello.txt\0", 100, 0);
    assert_eq!(code, 13);
    assert_eq!(bytes.len(), 13);
    let (code, bytes) = fetch(&mut registry, b"/hello.txt\0", 0, 0);
    assert_eq!(code, 0);
    assert!(bytes.is_empty());
}

#[test]
fn read_longer_than_asked_fails_and_copies_nothing() {
    let mut registry = mounted();
    let (code, bytes) = fetch(&mut registry, b"/long\0", 5, 0);
    assert_eq!(code, -38);
    assert!(bytes.is_empty());
    let (code, bytes) = fetch(&mut registry, b"/long\0", 0, 0);
    assert_eq!(code, -38);
    assert!(bytes.is_empty());
}

#[test]
fn read_error_is_forwarded() {
    let mut registry = mounted();
    let (code, bytes) = fetch(&mut registry, b"/missing\0", 5, 0);
    assert_eq!(code, -2);
    assert!(bytes.is_empty());
}

#[test]
fn open_is_for_reading_only() {
    let mut registry = mounted();
    assert_eq!(open_with(&mut registry, b"/hello.txt\0", nix::libc::O_RDONLY), 0);
    assert_eq!(
        open_with(&mut registry, b"/hello.txt\0", nix::libc::O_RDONLY | nix::libc::O_NOATIME),
        0
    );
    assert_eq!(open_with(&mut registry, b"/hello.txt\0", nix::libc::O_WRONLY), -13);
    assert_eq!(open_with(&mut registry, b"/hello.txt\0", nix::libc::O_RDWR), -13);
    assert_eq!(open_with(&mut registry, b"/hello.txt\0", 3), -13);
    assert_eq!(open_with(&mut registry, b"/missing\0", nix::libc::O_RDONLY), -2);
    assert_eq!(open_with(&mut registry, b"/missing\0", nix::libc::O_WRONLY), -2);
}

#[test]
fn filler_refusal_stops_the_listing() {
    let mut registry = mounted();
    let (code, names) = list(&mut registry, b"/many\0", &[0, 1, 0]);
    assert_eq!(code, -5);
    assert_eq!(names, vec![b"a\0".to_vec(), b"b\0".to_vec()]);
    let (code, names) = list(&mut registry, b"/many\0", &[-1]);
    assert_eq!(code, -5);
    assert_eq!(names, vec![b"a\0".to_vec()]);
    let (code, names) = list(&mut registry, b"/many\0", &[0, 0, 0]);
    assert_eq!(code, 0);
    assert_eq!(names.len(), 3);
}

#[test]
fn listing_with_a_nul_in_a_name_fails_before_the_filler() {
    let mut registry = mounted();
    let (code, names) = list(&mut registry, b"/bad\0", &[]);
    assert_eq!(code, -5);
    assert!(names.is_empty());
}

#[test]
fn listing_error_is_forwarded() {
    let mut registry = mounted();
    let (code, names) = list(&mut registry, b"/missing\0", &[]);
    assert_eq!(code, -2);
    assert!(names.is_empty());
}

#[test]
fn record_without_a_waiting_name_changes_nothing() {
    let mut registry = mounted();
    let (call, fs) =
        readdir(&registry, KEY, NAME, good(), good(), good(), good(), b"/\0").unwrap();
    let fs = fs.clone();
    let outcome = ThunkOutcome::Returned(call.invoke(&*fs));
    let mut fill = call.complete(&mut registry, NAME, outcome).unwrap();
    assert_eq!(fill.next_name().unwrap(), &b"hello.txt\0".to_vec());
    fill.record(0);
    assert!(fill.finished());
    fill.record(9);
    assert_eq!(fill.code(), 0);
    assert!(fill.next_name().is_none());
}

#[test]
fn panic_poisons_every_later_call() {
    let mut registry = mounted();
    let (call, _) = getattr(&registry, KEY, NAME, good(), good(), good(), b"/boom\0").unwrap();
    assert_eq!(call.path_str(), "/boom");
    let outcome = ThunkOutcome::Panicked(String::from("\"user code failed\""));
    let reply = call.complete(&mut registry, NAME, outcome);
    assert_eq!(reply.code, -131);
    assert!(reply.stat.is_none());
    assert!(!registry.contains(KEY));

    let (code, stat) = query(&mut registry, b"/\0");
    assert_eq!(code, -131);
    assert!(stat.is_none());
    let (code, _) = fetch(&mut registry, b"/hello.txt\0", 5, 0);
    assert_eq!(code, -131);
    let (code, _) = list(&mut registry, b"/\0", &[]);
    assert_eq!(code, -131);
    assert_eq!(open_with(&mut registry, b"/hello.txt\0", 0), -131);
}

#[test]
fn panic_in_open_read_and_readdir_is_not_recoverable() {
    let mut registry = mounted();
    let (call, _) = open(&registry, KEY, NAME, good(), good(), b"/hello.txt\0", info(0)).unwrap();
    assert_eq!(call.complete(&mut registry, NAME, ThunkOutcome::Panicked(String::new())), -131);
    assert!(!registry.contains(KEY));

    let mut registry = mounted();
    let (call, _) =
        read(&registry, KEY, NAME, good(), good(), 5, 0, good(), b"/hello.txt\0").unwrap();
    let reply = call.complete(&mut registry, NAME, ThunkOutcome::Panicked(String::new()));
    assert_eq!(reply.code, -131);
    assert!(reply.bytes.is_empty());
    assert!(!registry.contains(KEY));

    let mut registry = mounted();
    let (call, _) =
        readdir(&registry, KEY, NAME, good(), good(), good(), good(), b"/\0").unwrap();
    let result = call.complete(&mut registry, NAME, ThunkOutcome::Panicked(String::new()));
    assert_eq!(result.err(), Some(-131));
    assert!(!registry.contains(KEY));
}
