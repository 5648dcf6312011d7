use options::name::same_name;

#[test]
fn equal_names_are_the_same() {
    assert!(same_name("", ""));
    assert!(same_name("a", "a"));
    assert!(same_name("retries", "retries"));
    assert!(same_name("日本語", "日本語"));
}

#[test]
fn different_names_are_not_the_same() {
    assert!(!same_name("a", "b"));
    assert!(!same_name("a", ""));
    assert!(!same_name("", "a"));
    assert!(!same_name("a", "A"));
    assert!(!same_name("ab", "ba"));
}

#[test]
fn prefix_is_not_the_same_name() {
    assert!(!same_name("retries", "retry"));
    assert!(!same_name("a", "ab"));
    assert!(!same_name("ab", "a"));
}

#[test]
fn names_of_equal_length_are_compared_to_the_end() {
    assert!(!same_name("abcd", "abce"));
    assert!(!same_name("xbcd", "abcd"));
}

#[test]
fn composed_and_decomposed_letters_differ() {
    assert!(!same_name("é", "e\u{301}"));
}
