use rusty_uevr::util::{decode_wstr, encode_cstr, encode_wstr, str_eq};

#[test]
fn encode_wstr_ascii_is_terminated() {
    assert_eq!(encode_wstr("Ab"), vec![0x41u16, 0x62, 0]);
}

#[test]
fn encode_wstr_empty_is_one_zero() {
    assert_eq!(encode_wstr(""), vec![0u16]);
}

#[test]
fn encode_wstr_splits_into_surrogates() {
    // U+1F600 lies above the basic plane: 0xD83D 0xDE00.
    assert_eq!(encode_wstr("\u{1F600}"), vec![0xD83Du16, 0xDE00, 0]);
    // The last character of the basic plane takes one unit.
    assert_eq!(encode_wstr("\u{FFFF}"), vec![0xFFFFu16, 0]);
    // The first character beyond it takes two.
    assert_eq!(encode_wstr("\u{10000}"), vec![0xD800u16, 0xDC00, 0]);
    // The last character of all.
    assert_eq!(encode_wstr("\u{10FFFF}"), vec![0xDBFFu16, 0xDFFF, 0]);
}

#[test]
fn encode_wstr_agrees_with_std() {
    let text = "Class /Script/CoreUObject.Object \u{e9}\u{4e2d}\u{1F680}";
    let mut expected: Vec<u16> = text.encode_utf16().collect();
    expected.push(0);
    assert_eq!(encode_wstr(text), expected);
}

#[test]
fn encode_cstr_appends_zero() {
    assert_eq!(encode_cstr("hi"), vec![b'h', b'i', 0]);
    assert_eq!(encode_cstr(""), vec![0u8]);
}

#[test]
fn decode_wstr_reads_what_was_encoded() {
    let mut units = encode_wstr("Leaf\u{1F600}");
    units.pop();
    assert_eq!(decode_wstr(&units), Some(String::from("Leaf\u{1F600}")));
}

#[test]
fn decode_wstr_refuses_lone_surrogate() {
    assert_eq!(decode_wstr(&vec![0xD800u16]), None);
    assert_eq!(decode_wstr(&vec![0x41u16, 0xDC00]), None);
}

#[test]
fn decode_wstr_of_nothing_is_empty() {
    assert_eq!(decode_wstr(&Vec::new()), Some(String::new()));
}

#[test]
fn str_eq_compares_texts() {
    assert!(str_eq("functions", "functions"));
    assert!(!str_eq("functions", "function"));
    assert!(!str_eq("class", "clasz"));
    assert!(str_eq("", ""));
}
