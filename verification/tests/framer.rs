use pico8_bridge::framer::request;

#[test]
fn request_extracts_slot() {
    assert_eq!(request("\u{2609}3\u{2609}\n"), Some(3));
    assert_eq!(request("\u{2609}0\u{2609}\n"), Some(0));
    assert_eq!(request("\u{2609}12\u{2609}\n"), Some(12));
    assert_eq!(request("\u{2609}007\u{2609}\n"), Some(7));
}

#[test]
fn request_rejects_plain_text() {
    assert_eq!(request("hello\n"), None);
    assert_eq!(request(""), None);
    assert_eq!(request("\n"), None);
    assert_eq!(request("3\n"), None);
}

#[test]
fn request_rejects_missing_terminator() {
    assert_eq!(request("\u{2609}3\u{2609}"), None);
}

#[test]
fn request_rejects_empty_number() {
    assert_eq!(request("\u{2609}\u{2609}\n"), None);
}

#[test]
fn request_rejects_surrounding_text() {
    assert_eq!(request("x\u{2609}3\u{2609}\n"), None);
    assert_eq!(request("\u{2609}3\u{2609}x\n"), None);
    assert_eq!(request("\u{2609}3\u{2609}\nmore"), None);
}

#[test]
fn request_rejects_non_numeric_content() {
    assert_eq!(request("\u{2609}3a\u{2609}\n"), None);
    assert_eq!(request("\u{2609}-1\u{2609}\n"), None);
    assert_eq!(request("\u{2609}+1\u{2609}\n"), None);
    assert_eq!(request("\u{2609} 1\u{2609}\n"), None);
    assert_eq!(request("\u{2609}\u{2609}3\u{2609}\n"), None);
}

#[test]
fn request_rejects_out_of_range_number() {
    assert_eq!(request("\u{2609}99999999999999999999999999999999\u{2609}\n"), None);
}

#[test]
fn request_accepts_largest_slot() {
    let line = format!("\u{2609}{}\u{2609}\n", usize::MAX);
    assert_eq!(request(&line), Some(usize::MAX));
    let line = format!("\u{2609}{}6\u{2609}\n", usize::MAX / 10 + 1);
    assert_eq!(request(&line), None);
}
