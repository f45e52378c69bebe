use rusty_uevr::api::capability::{
    compose_full_name, FullNameWalk, OuterLink, RUField, RUObject, RUStruct,
};
use rusty_uevr::api::handle::{UClass, UObject};
use rusty_uevr::api::ptr::Ptr;

fn link(addr: usize, name: &str) -> OuterLink {
    OuterLink { object: UObject::from_ptr(addr), name: String::from(name) }
}

#[test]
fn full_name_walks_to_the_root() {
    let leaf = UObject::from_ptr(0xa);
    let outers = vec![link(0xb, "Mid"), link(0xc, "Root")];
    assert_eq!(leaf.get_full_name(Some("Cls"), "Leaf", &outers), "Cls Root.Mid.Leaf");
}

#[test]
fn full_name_of_self_outer_takes_no_step() {
    let object = UObject::from_ptr(0xa);
    let outers = vec![link(0xa, "Leaf"), link(0xb, "Never")];
    assert_eq!(object.get_full_name(Some("Cls"), "Leaf", &outers), "Cls Leaf");
}

#[test]
fn full_name_without_outer_is_class_and_name() {
    let object = UObject::from_ptr(0xa);
    assert_eq!(object.get_full_name(Some("Cls"), "Leaf", &Vec::new()), "Cls Leaf");
}

#[test]
fn full_name_without_class_is_empty() {
    let object = UObject::from_ptr(0xa);
    let outers = vec![link(0xb, "Mid")];
    assert_eq!(object.get_full_name(None, "Leaf", &outers), "");
}

#[test]
fn full_name_stops_where_the_chain_returns() {
    let object = UObject::from_ptr(0xa);
    let outers = vec![link(0xb, "Mid"), link(0xa, "Leaf"), link(0xc, "Root")];
    assert_eq!(object.get_full_name(Some("Package"), "Leaf", &outers), "Package Mid.Leaf");
}

#[test]
fn full_name_is_the_same_for_every_object_capability() {
    let class = UClass::from_ptr(0x1);
    let outers = vec![link(0x2, "CoreUObject")];
    assert_eq!(class.get_full_name(Some("Class"), "Object", &outers), "Class CoreUObject.Object");
    assert_eq!(
        compose_full_name(0x1, Some("Class"), "Object", &outers),
        "Class CoreUObject.Object"
    );
}

#[test]
fn walk_is_driven_step_by_step() {
    let mut walk = FullNameWalk::start(0xa, "Leaf");
    assert!(walk.goes_on(&Some(UObject::from_ptr(0xb))));
    walk.enter("Mid");
    assert!(walk.goes_on(&Some(UObject::from_ptr(0xc))));
    walk.enter("Root");
    assert!(!walk.goes_on(&None));
    assert_eq!(walk.finish("Cls"), "Cls Root.Mid.Leaf");
}

#[test]
fn walk_ends_at_the_object_itself() {
    let walk = FullNameWalk::start(0xa, "Leaf");
    assert!(!walk.goes_on(&Some(UObject::from_ptr(0xa))));
    assert!(!walk.goes_on(&None));
    assert_eq!(walk.finish("Cls"), "Cls Leaf");
}

#[test]
fn capability_handles_are_the_address() {
    let class = UClass::from_ptr(0x77);
    assert_eq!(class.to_object_handle(), 0x77);
    assert_eq!(class.to_field_handle(), 0x77);
    assert_eq!(class.to_struct_handle(), 0x77);
}
