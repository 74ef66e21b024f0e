use cask::text::{decimal_text, split, trim};

#[test]
fn trim_removes_outer_white_space() {
    assert_eq!(trim("  /bin \n"), "/bin");
    assert_eq!(trim(" \t "), "");
    assert_eq!(trim("a b"), "a b");
}

#[test]
fn split_keeps_empty_pieces() {
    assert_eq!(split("a//b", '/'), vec!["a", "", "b"]);
    assert_eq!(split("", '/'), vec![""]);
    assert_eq!(split("abc", '/'), vec!["abc"]);
}

#[test]
fn decimal_text_writes_base_ten() {
    assert_eq!(decimal_text(0), "0");
    assert_eq!(decimal_text(1650000000), "1650000000");
    assert_eq!(decimal_text(u64::MAX), "18446744073709551615");
}
