use nix::errno::Errno;
use rust_bindgen_fuse::guard::{call_into_user_code, ThunkOutcome};
use rust_bindgen_fuse::mount::{fuse_init, FuseHandle, MountError};
use rust_bindgen_fuse::registry::{fetch_fs_from_registry, NotRegistered, Registry};
use std::sync::Arc;

#[test]
fn new_registry_finds_nothing() {
    let registry: Registry<Arc<String>> = Registry::new();
    assert!(!registry.contains(1));
    assert_eq!(registry.get(1).unwrap_err(), NotRegistered { key: 1 });
}

#[test]
fn register_then_get_returns_the_same_instance() {
    let mut registry: Registry<Arc<String>> = Registry::new();
    let instance = Arc::new(String::from("fs"));
    registry.register(7, instance.clone());
    let found = registry.get(7).unwrap();
    assert!(Arc::ptr_eq(found, &instance));
    assert!(registry.contains(7));
    assert!(!registry.contains(8));
}

#[test]
fn register_replaces_the_earlier_instance() {
    let mut registry: Registry<Arc<String>> = Registry::new();
    let first = Arc::new(String::from("first"));
    let second = Arc::new(String::from("second"));
    registry.register(7, first.clone());
    registry.register(9, first.clone());
    registry.register(7, second.clone());
    assert!(Arc::ptr_eq(registry.get(7).unwrap(), &second));
    assert!(Arc::ptr_eq(registry.get(9).unwrap(), &first));
}

#[test]
fn clear_makes_every_lookup_fail() {
    let mut registry: Registry<Arc<String>> = Registry::new();
    registry.register(1, Arc::new(String::from("a")));
    registry.register(2, Arc::new(String::from("b")));
    registry.clear();
    assert!(registry.get(1).is_err());
    assert!(registry.get(2).is_err());
    assert!(registry.get(3).is_err());
    assert!(registry.get(1).is_err());
}

#[test]
fn register_after_clear_is_found_again() {
    let mut registry: Registry<Arc<String>> = Registry::new();
    registry.register(1, Arc::new(String::from("a")));
    registry.clear();
    let fresh = Arc::new(String::from("fresh"));
    registry.register(1, fresh.clone());
    assert!(Arc::ptr_eq(registry.get(1).unwrap(), &fresh));
}

#[test]
fn fetch_finds_the_registered_filesystem() {
    let mut registry: Registry<u32> = Registry::new();
    registry.register(4, 99);
    assert_eq!(*fetch_fs_from_registry(&registry, 4, "HelloFS").unwrap(), 99);
}

#[test]
fn fetch_from_an_empty_registry_is_not_recoverable() {
    let registry: Registry<u32> = Registry::new();
    let (message, code) = fetch_fs_from_registry(&registry, 4, "HelloFS").unwrap_err();
    assert_eq!(code.raw(), 131);
    assert_eq!(message, "State lookup for `HelloFS` failed. Registry corrupted?");
}

#[test]
fn returned_value_passes_unchanged() {
    let mut registry: Registry<u32> = Registry::new();
    registry.register(1, 10);
    let outcome: ThunkOutcome<Vec<u8>> = ThunkOutcome::Returned(Ok(vec![1, 2, 3]));
    let result = call_into_user_code(&mut registry, "HelloFS", "read", outcome);
    assert_eq!(result.unwrap(), vec![1, 2, 3]);
    assert_eq!(*registry.get(1).unwrap(), 10);
}

#[test]
fn returned_error_keeps_its_number_and_names_the_call() {
    let mut registry: Registry<u32> = Registry::new();
    registry.register(1, 10);
    let outcome: ThunkOutcome<u8> = ThunkOutcome::Returned(Err(Errno::ENOENT));
    let (message, code) =
        call_into_user_code(&mut registry, "HelloFS", "getattr", outcome).unwrap_err();
    assert_eq!(code.raw(), 2);
    assert_eq!(code.return_code(), -2);
    assert_eq!(message, "Error in user code `HelloFS::getattr`");
    assert!(registry.contains(1));
}

#[test]
fn panic_is_not_recoverable_and_empties_the_registry() {
    let mut registry: Registry<u32> = Registry::new();
    registry.register(1, 10);
    registry.register(2, 20);
    let outcome: ThunkOutcome<u8> = ThunkOutcome::Panicked(String::from("Any { .. }"));
    let (message, code) =
        call_into_user_code(&mut registry, "HelloFS", "readdir", outcome).unwrap_err();
    assert_eq!(code.raw(), 131);
    assert_eq!(message, "PANIC on `HelloFS::readdir`:\n\nAny { .. }\n");
    assert!(!registry.contains(1));
    assert!(!registry.contains(2));
    assert!(fetch_fs_from_registry(&registry, 1, "HelloFS").is_err());
}

fn strings(items: &[&str]) -> Vec<String> {
    items.iter().map(|s| s.to_string()).collect()
}

#[test]
fn mount_registers_and_builds_the_argument_vector() {
    let mut registry: Registry<u32> = Registry::new();
    let plan = fuse_init(&mut registry, 5, 77, b"/mnt/hello", &strings(&["hello", "-d"])).unwrap();
    assert_eq!(
        plan.argv,
        vec![
            b"hello\0".to_vec(),
            b"-d\0".to_vec(),
            b"-f\0".to_vec(),
            b"-s\0".to_vec(),
            b"-o\0".to_vec(),
            b"auto_unmount\0".to_vec(),
            b"/mnt/hello\0".to_vec(),
        ]
    );
    assert_eq!(*registry.get(5).unwrap(), 77);
}

#[test]
fn mount_without_arguments_still_forces_its_options() {
    let mut registry: Registry<u32> = Registry::new();
    let plan = fuse_init(&mut registry, 5, 77, b"/m", &Vec::new()).unwrap();
    assert_eq!(plan.argv.len(), 5);
    assert_eq!(plan.argv[4], b"/m\0".to_vec());
}

#[test]
fn mount_point_that_is_not_unicode_is_refused() {
    let mut registry: Registry<u32> = Registry::new();
    let error = fuse_init(&mut registry, 5, 77, b"/mnt/\xff", &strings(&["hello"])).unwrap_err();
    assert_eq!(error, MountError::MountPointNotUnicode);
    assert!(!registry.contains(5));
}

#[test]
fn mount_point_with_nul_is_refused() {
    let mut registry: Registry<u32> = Registry::new();
    let error = fuse_init(&mut registry, 5, 77, b"/mnt\0/x", &strings(&["hello"])).unwrap_err();
    assert_eq!(error, MountError::MountPointHasNul);
    assert!(!registry.contains(5));
}

#[test]
fn argument_with_nul_is_refused_with_its_place() {
    let mut registry: Registry<u32> = Registry::new();
    let args = strings(&["hello", "a\0b", "c\0"]);
    let error = fuse_init(&mut registry, 5, 77, b"/mnt", &args).unwrap_err();
    assert_eq!(error, MountError::ArgumentHasNul { index: 1 });
    assert!(!registry.contains(5));
}

#[test]
fn native_status_decides_the_handle() {
    assert_eq!(FuseHandle::from_status(0).unwrap().status(), 0);
    assert_eq!(FuseHandle::from_status(1).unwrap_err(), MountError::NativeFailure { status: 1 });
    assert_eq!(FuseHandle::from_status(-7).unwrap_err(), MountError::NativeFailure { status: -7 });
}
