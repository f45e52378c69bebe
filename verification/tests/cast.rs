use rusty_uevr::api::handle::{UClass, UObject, UWorld};
use rusty_uevr::api::object_hook::{get_first_object_by_class, get_objects_by_class};
use rusty_uevr::api::ptr::Ptr;

#[test]
fn cast_succeeds_when_the_host_affirms() {
    let object = UObject::from_ptr(0x10);
    assert_eq!(object.cast::<UClass>(true), Some(UClass::from_ptr(0x10)));
    assert_eq!(object.cast::<UWorld>(true), Some(UWorld::from_ptr(0x10)));
}

#[test]
fn cast_is_empty_when_the_host_denies() {
    for addr in [0usize, 0x10, usize::MAX] {
        assert_eq!(UObject::from_ptr(addr).cast::<UClass>(false), None);
        assert_eq!(UClass::from_ptr(addr).cast::<UObject>(false), None);
    }
}

#[test]
fn matching_keeps_the_affirmed_in_order() {
    let objects = get_objects_by_class(&vec![0x10, 0x20, 0x30, 0x40]);
    let found = UClass::get_objects_matching::<UWorld>(&objects, &vec![true, false, false, true]);
    assert_eq!(found, vec![UWorld::from_ptr(0x10), UWorld::from_ptr(0x40)]);
}

#[test]
fn matching_of_denied_objects_is_empty() {
    let objects = get_objects_by_class(&vec![0x10, 0x20]);
    let found = UClass::get_objects_matching::<UWorld>(&objects, &vec![false, false]);
    assert!(found.is_empty());
    let none = UClass::get_objects_matching::<UWorld>(&Vec::new(), &Vec::new());
    assert!(none.is_empty());
}

#[test]
fn matching_unsafe_keeps_every_object() {
    let objects = get_objects_by_class(&vec![0x10, 0, 0x30]);
    let found = UClass::get_objects_matching_unsafe::<UClass>(&objects);
    assert_eq!(found, vec![UClass::from_ptr(0x10), UClass::from_ptr(0), UClass::from_ptr(0x30)]);
}

#[test]
fn first_match_needs_an_object_and_the_hosts_word() {
    let object = get_first_object_by_class(0x50);
    assert_eq!(object, Some(UObject::from_ptr(0x50)));
    assert_eq!(
        UClass::get_first_object_matching::<UWorld>(object, true),
        Some(UWorld::from_ptr(0x50))
    );
    assert_eq!(UClass::get_first_object_matching::<UWorld>(object, false), None);
    assert_eq!(UClass::get_first_object_matching::<UWorld>(None, true), None);
    assert_eq!(get_first_object_by_class(0), None);
}

#[test]
fn first_match_unsafe_needs_only_an_object() {
    assert_eq!(
        UClass::get_first_object_matching_unsafe::<UClass>(Some(UObject::from_ptr(0x60))),
        Some(UClass::from_ptr(0x60))
    );
    assert_eq!(UClass::get_first_object_matching_unsafe::<UClass>(None), None);
}

#[test]
fn raw_objects_wrap_every_address() {
    let objects = UClass::get_objects_matching_raw(&vec![7, 0, 9]);
    assert_eq!(objects, vec![UObject::from_ptr(7), UObject::from_ptr(0), UObject::from_ptr(9)]);
    assert_eq!(UClass::get_first_object_matching_raw(0), None);
    assert_eq!(UClass::get_first_object_matching_raw(3), Some(UObject::from_ptr(3)));
}
