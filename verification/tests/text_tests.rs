use cf_update_backend::text::{
    append_decimal, chars_of, decimal_string, ends_with, replace, same_text, starts_with,
};

#[test]
fn decimal_of_single_digits() {
    assert_eq!(decimal_string(0), "0");
    assert_eq!(decimal_string(7), "7");
    assert_eq!(decimal_string(9), "9");
}

#[test]
fn decimal_of_longer_numbers() {
    assert_eq!(decimal_string(10), "10");
    assert_eq!(decimal_string(22), "22");
    assert_eq!(decimal_string(8080), "8080");
    assert_eq!(decimal_string(1234567890), "1234567890");
    assert_eq!(decimal_string(1_700_000_000_000_000), "1700000000000000");
}

#[test]
fn decimal_of_the_largest_number() {
    assert_eq!(decimal_string(u128::MAX), u128::MAX.to_string());
    assert_eq!(decimal_string(u64::MAX as u128), u64::MAX.to_string());
}

#[test]
fn decimal_agrees_with_the_standard_rendering() {
    let mut n: u128 = 1;
    while n < u128::MAX / 7 {
        assert_eq!(decimal_string(n), n.to_string());
        assert_eq!(decimal_string(n - 1), (n - 1).to_string());
        n *= 7;
    }
}

#[test]
fn append_decimal_keeps_what_was_there() {
    let mut s = String::from("port ");
    append_decimal(&mut s, 443);
    assert_eq!(s, "port 443");
    append_decimal(&mut s, 0);
    assert_eq!(s, "port 4430");
}

#[test]
fn ends_with_finds_suffixes() {
    assert!(ends_with("Command 'x' finished with non-zero exit code", "non-zero exit code"));
    assert!(ends_with("abc", "c"));
    assert!(ends_with("abc", "abc"));
    assert!(ends_with("abc", ""));
    assert!(ends_with("", ""));
}

#[test]
fn ends_with_rejects_other_texts() {
    assert!(!ends_with("non-zero exit code ", "non-zero exit code"));
    assert!(!ends_with("abc", "ab"));
    assert!(!ends_with("bc", "abc"));
    assert!(!ends_with("", "a"));
    assert!(!ends_with("non-zero exit code.", "non-zero exit code"));
}

#[test]
fn ends_with_counts_characters_not_bytes() {
    assert!(ends_with("grüße", "üße"));
    assert!(ends_with("日本語", "語"));
    assert!(!ends_with("日本語", "本"));
}

#[test]
fn starts_with_finds_prefixes() {
    assert!(starts_with("i-123.go", "i-"));
    assert!(starts_with("abc", ""));
    assert!(starts_with("abc", "abc"));
    assert!(!starts_with("abc", "bc"));
    assert!(!starts_with("a", "ab"));
    assert!(starts_with("über", "ü"));
}

#[test]
fn same_text_compares_characters() {
    assert!(same_text("", ""));
    assert!(same_text("zone", "zone"));
    assert!(!same_text("zone", "Zone"));
    assert!(!same_text("zone", "zone "));
}

#[test]
fn chars_of_lists_every_character() {
    assert_eq!(chars_of(""), Vec::<char>::new());
    assert_eq!(chars_of("a-ü"), vec!['a', '-', 'ü']);
}

#[test]
fn replace_replaces_every_occurrence() {
    assert_eq!(replace("a@xb@x", "@x", "12"), "a12b12");
    assert_eq!(replace("@x", "@x", ""), "");
    assert_eq!(replace("@x@x@x", "@x", "y"), "yyy");
    assert_eq!(replace("token=@token;", "@token", "s3cr3t"), "token=s3cr3t;");
}

#[test]
fn replace_leaves_other_text_alone() {
    assert_eq!(replace("nothing here", "@x", "y"), "nothing here");
    assert_eq!(replace("", "@x", "y"), "");
    assert_eq!(replace("@", "@x", "y"), "@");
    assert_eq!(replace("abc", "abcd", "y"), "abc");
}

#[test]
fn replace_goes_left_to_right_without_overlap() {
    assert_eq!(replace("aaa", "aa", "b"), "ba");
    assert_eq!(replace("aaaa", "aa", "b"), "bb");
    assert_eq!(replace("abab", "aba", "x"), "xb");
    assert_eq!(replace("aXa", "a", "aa"), "aaXaa");
}

#[test]
fn replace_with_an_empty_pattern_changes_nothing() {
    assert_eq!(replace("abc", "", "-"), "abc");
    assert_eq!(replace("", "", "-"), "");
}

#[test]
fn replace_agrees_with_the_standard_replace() {
    let texts = ["", "@", "@@dns@dns", "x@zone.y@zone", "@tok@token@token en", "päß@dns→"];
    let patterns = ["@dns", "@zone", "@token", "@", "ß"];
    let values = ["", "v", "@dns", "example.org"];
    for t in texts {
        for p in patterns {
            for v in values {
                assert_eq!(replace(t, p, v), t.replace(p, v));
            }
        }
    }
}
