use rusty_uevr::api::vr::{AimMethod, Eye, ModValue};

#[test]
fn eye_codes_are_the_hosts() {
    assert_eq!(Eye::Left.code(), 0);
    assert_eq!(Eye::Right.code(), 1);
}

#[test]
fn aim_method_codes_are_the_hosts() {
    assert_eq!(AimMethod::Game.code(), 0);
    assert_eq!(AimMethod::Head.code(), 1);
    assert_eq!(AimMethod::RightController.code(), 2);
    assert_eq!(AimMethod::LeftController.code(), 3);
    assert_eq!(AimMethod::TwoHandedRight.code(), 4);
    assert_eq!(AimMethod::TwoHandedLeft.code(), 5);
}

#[test]
fn aim_method_is_read_back_from_its_code() {
    for method in [
        AimMethod::Game,
        AimMethod::Head,
        AimMethod::RightController,
        AimMethod::LeftController,
        AimMethod::TwoHandedRight,
        AimMethod::TwoHandedLeft,
    ] {
        assert_eq!(AimMethod::from_code(method.code()), Some(method));
    }
}

#[test]
fn unknown_aim_code_is_no_method() {
    assert_eq!(AimMethod::from_code(6), None);
    assert_eq!(AimMethod::from_code(u32::MAX), None);
}

#[test]
fn bool_is_kept_as_true_or_false() {
    assert_eq!(true.serialize(), "true");
    assert_eq!(false.serialize(), "false");
}

#[test]
fn bool_is_read_as_true_only_from_true() {
    assert!(bool::deserialize("true"));
    assert!(!bool::deserialize("false"));
    assert!(!bool::deserialize("True"));
    assert!(!bool::deserialize("1"));
    assert!(!bool::deserialize(""));
}

#[test]
fn string_is_kept_as_it_is() {
    assert_eq!(String::from("Head").serialize(), "Head");
    assert_eq!(String::deserialize("Head"), "Head");
    assert_eq!(String::deserialize(""), "");
}

#[test]
fn values_come_back_from_their_text() {
    for value in [true, false] {
        assert_eq!(bool::deserialize(value.serialize().as_str()), value);
    }
    let text = String::from("two words");
    assert_eq!(String::deserialize(text.clone().serialize().as_str()), text);
}
