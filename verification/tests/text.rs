use tgcalls::text::{c_text, decimal_string, readable_count, text_or, texts_of, utf8_text};

#[test]
fn decimal_rendering() {
    assert_eq!(decimal_string(0), "0");
    assert_eq!(decimal_string(7), "7");
    assert_eq!(decimal_string(10), "10");
    assert_eq!(decimal_string(-306), "-306");
    assert_eq!(decimal_string(i64::MAX), i64::MAX.to_string());
    assert_eq!(decimal_string(i64::MIN), i64::MIN.to_string());
    for n in [-1000i64, -99, -10, -9, 1, 9, 99, 100, 4294967295] {
        assert_eq!(decimal_string(n), n.to_string());
    }
}

#[test]
fn c_strings_decode() {
    assert_eq!(c_text(&None), "");
    assert_eq!(c_text(&Some(b"/dev/video0".to_vec())), "/dev/video0");
    assert_eq!(c_text(&Some(vec![b'a', 0xff, b'b'])), "a\u{fffd}b");
    assert_eq!(text_or(&None, "unknown"), "unknown");
    assert_eq!(text_or(&Some(b"call.cpp".to_vec()), "unknown"), "call.cpp");
}

#[test]
fn utf8_validation() {
    assert_eq!(utf8_text(&b"ok".to_vec()), Some("ok".to_string()));
    assert_eq!(utf8_text(&vec![0xc3, 0x28]), None);
    assert_eq!(utf8_text(&vec![]), Some(String::new()));
}

#[test]
fn readable_counts() {
    assert_eq!(readable_count(false, 5), 5);
    assert_eq!(readable_count(true, 5), 0);
    assert_eq!(readable_count(false, 0), 0);
    assert_eq!(readable_count(false, -3), 0);
}

#[test]
fn string_arrays_skip_null_entries() {
    let entries = vec![Some(b"2.7.7".to_vec()), None, Some(b"11.0.0".to_vec())];
    assert_eq!(texts_of(&entries), vec!["2.7.7".to_string(), "11.0.0".to_string()]);
    assert!(texts_of(&vec![]).is_empty());
}
