use calendar_api::text::{chars_of, join_decimals, same_text, trim};

#[test]
fn trim_removes_unicode_white_space_at_both_ends() {
    assert_eq!(trim("  Conseil municipal \n"), "Conseil municipal");
    assert_eq!(trim("\u{3000}\u{2028}a b\u{a0}"), "a b");
    assert_eq!(trim(" \t "), "");
    assert_eq!(trim("é"), "é");
    assert_eq!(trim("\u{200b}x"), "\u{200b}x");
}

#[test]
fn chars_and_comparison() {
    assert_eq!(chars_of("aé€"), vec!['a', 'é', '€']);
    assert!(same_text("private", "private"));
    assert!(!same_text("private", "Private"));
    assert!(!same_text("priv", "private"));
}

#[test]
fn decimals_are_joined_by_commas() {
    assert_eq!(join_decimals(&vec![1, 4]), "1,4");
    assert_eq!(join_decimals(&vec![]), "");
    assert_eq!(join_decimals(&vec![0, 9, 10, 99, 100, 255]), "0,9,10,99,100,255");
}
