use wasm_bpf_rs::error::BridgeError;
use wasm_bpf_rs::object::HostObject;
use wasm_bpf_rs::registry::{ObjectRegistry, FIRST_HANDLE};

fn object_with(maps: &[(&str, i32)]) -> HostObject {
    let mut object = HostObject::new();
    for (name, fd) in maps {
        assert!(object.add_map(name, *fd));
    }
    object
}

fn fd_in(object: &HostObject, name: &str) -> Option<i32> {
    object.map(name).map(|entry| entry.fd())
}

#[test]
fn new_object_holds_no_map() {
    let object = HostObject::new();
    assert!(object.map("counts").is_none());
    assert!(object.map("").is_none());
}

#[test]
fn added_map_is_found_under_its_name() {
    let object = object_with(&[("counts", 5), ("events", 0), ("", 9)]);
    let entry = object.map("events").unwrap();
    assert_eq!(entry.name(), "events");
    assert_eq!(entry.fd(), 0);
    assert_eq!(fd_in(&object, "counts"), Some(5));
    assert_eq!(fd_in(&object, ""), Some(9));
    assert_eq!(fd_in(&object, "other"), None);
}

#[test]
fn second_map_of_one_name_is_refused() {
    let mut object = object_with(&[("counts", 5)]);
    assert!(!object.add_map("counts", 6));
    assert_eq!(fd_in(&object, "counts"), Some(5));
    assert!(object.add_map("Counts", 6));
    assert_eq!(fd_in(&object, "Counts"), Some(6));
    assert_eq!(fd_in(&object, "counts"), Some(5));
}

#[test]
fn negative_descriptor_is_refused() {
    let mut object = HostObject::new();
    assert!(!object.add_map("counts", -1));
    assert!(!object.add_map("counts", i32::MIN));
    assert!(object.map("counts").is_none());
    assert!(object.add_map("counts", i32::MAX));
    assert_eq!(fd_in(&object, "counts"), Some(i32::MAX));
}

#[test]
fn handles_are_issued_in_turn_from_the_first() {
    let mut registry = ObjectRegistry::new();
    assert_eq!(FIRST_HANDLE, 1);
    assert_eq!(registry.register(HostObject::new()), Some(1));
    assert_eq!(registry.register(HostObject::new()), Some(2));
    assert_eq!(registry.register(HostObject::new()), Some(3));
    assert!(registry.contains(1) && registry.contains(2) && registry.contains(3));
    assert!(!registry.contains(0));
    assert!(!registry.contains(4));
}

#[test]
fn released_handle_is_not_issued_again() {
    let mut registry = ObjectRegistry::new();
    let first = registry.register(object_with(&[("counts", 5)])).unwrap();
    let released = registry.release(first).unwrap();
    assert_eq!(fd_in(&released, "counts"), Some(5));
    assert!(!registry.contains(first));
    let second = registry.register(HostObject::new()).unwrap();
    assert_ne!(second, first);
    assert_eq!(second, 2);
    assert!(!registry.contains(first));
}

#[test]
fn release_of_an_unknown_handle_gives_nothing() {
    let mut registry = ObjectRegistry::new();
    assert!(registry.release(1).is_none());
    let handle = registry.register(HostObject::new()).unwrap();
    assert!(registry.release(handle + 1).is_none());
    assert!(registry.contains(handle));
    assert!(registry.release(handle).is_some());
    assert!(registry.release(handle).is_none());
}

#[test]
fn resolve_gives_the_object_under_the_handle() {
    let mut registry = ObjectRegistry::new();
    let a = registry.register(object_with(&[("counts", 5)])).unwrap();
    let b = registry.register(object_with(&[("counts", 8)])).unwrap();
    assert_eq!(fd_in(registry.resolve(a).ok().unwrap(), "counts"), Some(5));
    assert_eq!(fd_in(registry.resolve(b).ok().unwrap(), "counts"), Some(8));
}

#[test]
fn resolve_of_a_handle_that_is_not_live_is_invalid_handle() {
    let mut registry = ObjectRegistry::new();
    assert_eq!(registry.resolve(0).err(), Some(BridgeError::InvalidHandle));
    assert_eq!(registry.resolve(1).err(), Some(BridgeError::InvalidHandle));
    assert_eq!(registry.resolve_mut(1).err(), Some(BridgeError::InvalidHandle));
    let handle = registry.register(HostObject::new()).unwrap();
    assert!(registry.resolve(handle).is_ok());
    registry.release(handle);
    assert_eq!(registry.resolve(handle).err(), Some(BridgeError::InvalidHandle));
    assert_eq!(registry.resolve_mut(handle).err(), Some(BridgeError::InvalidHandle));
    assert_eq!(registry.resolve(u64::MAX).err(), Some(BridgeError::InvalidHandle));
}

#[test]
fn change_through_resolve_mut_stays_in_the_registry() {
    let mut registry = ObjectRegistry::new();
    let a = registry.register(object_with(&[("counts", 5)])).unwrap();
    let b = registry.register(object_with(&[("counts", 8)])).unwrap();
    {
        let object = registry.resolve_mut(a).ok().unwrap();
        assert_eq!(fd_in(object, "counts"), Some(5));
        assert!(object.add_map("events", 6));
    }
    assert_eq!(fd_in(registry.resolve(a).ok().unwrap(), "events"), Some(6));
    assert_eq!(fd_in(registry.resolve(a).ok().unwrap(), "counts"), Some(5));
    assert_eq!(fd_in(registry.resolve(b).ok().unwrap(), "events"), None);
    assert_eq!(fd_in(registry.resolve(b).ok().unwrap(), "counts"), Some(8));
}
