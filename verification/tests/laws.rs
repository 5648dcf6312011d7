use options::Options;

#[test]
fn value_is_found_right_after_it_is_set() {
    let mut options = Options::new();
    options.set("n", 17u64);
    assert_eq!(options.get::<u64>("n"), Some(17));
    assert_eq!(options.get_ref::<u64>("n"), Some(&17));

    options.set("s", "text".to_string());
    assert_eq!(options.get::<String>("s"), Some("text".to_string()));
    assert_eq!(options.get_ref::<String>("s").unwrap(), "text");
}

#[test]
fn other_type_finds_nothing_though_the_name_is_there() {
    let mut options = Options::new();
    options.set("n", 17u64);
    assert_eq!(options.get::<u32>("n"), None);
    assert_eq!(options.get::<i64>("n"), None);
    assert_eq!(options.get::<String>("n"), None);
    assert_eq!(options.get_ref::<bool>("n"), None);
    assert!(options.get_mut::<usize>("n").is_none());
    assert!(options.has("n"));
}

#[test]
fn borrowed_string_is_not_found_as_owned_string() {
    let mut options = Options::new();
    options.set("borrowed", "text");
    options.set("owned", "text".to_string());

    assert_eq!(options.get::<String>("borrowed"), None);
    assert_eq!(options.get::<&str>("borrowed"), Some("text"));
    assert_eq!(options.get::<&str>("owned"), None);
    assert_eq!(options.get::<String>("owned"), Some("text".to_string()));
}

#[test]
fn missing_name_and_wrong_type_look_the_same() {
    let mut options = Options::new();
    options.set("present", 1i32);
    assert_eq!(options.get::<i64>("present"), options.get::<i64>("absent"));
    assert_eq!(options.get_ref::<i64>("present"), options.get_ref::<i64>("absent"));
}

#[test]
fn name_that_was_never_set_is_not_there() {
    let mut options = Options::new();
    assert!(!options.has("a"));
    assert!(!options.has(""));

    options.set("a", 1i32).set("b", 2i32);
    assert!(options.has("a"));
    assert!(options.has("b"));
    assert!(!options.has("c"));
    assert!(!options.has("A"));
    assert!(!options.has("ab"));
    assert!(!options.has(""));
    assert_eq!(options.get::<i32>("c"), None);
}

#[test]
fn reading_does_not_add_names() {
    let mut options = Options::new();
    options.set("a", 1i32);
    assert_eq!(options.get::<i32>("b"), None);
    assert!(options.get_mut::<i32>("b").is_none());
    assert!(!options.has("b"));
    assert_eq!(options.names().count(), 1);
}

#[test]
fn second_set_wins() {
    let mut options = Options::new();
    options.set("n", 1i32).set("n", 2i32);
    assert_eq!(options.get::<i32>("n"), Some(2));
    assert_eq!(options.names().count(), 1);

    let mut only_second = Options::new();
    only_second.set("n", 2i32);
    assert_eq!(options.get::<i32>("n"), only_second.get::<i32>("n"));
    assert_eq!(options.names().count(), only_second.names().count());
}

#[test]
fn second_set_wins_across_types() {
    let mut options = Options::new();
    options.set("n", 1i32).set("n", "two".to_string());
    assert_eq!(options.get::<i32>("n"), None);
    assert_eq!(options.get::<String>("n"), Some("two".to_string()));
    assert_eq!(options.names().count(), 1);
}

#[test]
fn overwriting_leaves_the_other_names_alone() {
    let mut options = Options::new();
    options.set("a", 1i32).set("b", 2i32).set("c", 3i32);
    options.set("b", 20i32);
    assert_eq!(options.get::<i32>("a"), Some(1));
    assert_eq!(options.get::<i32>("b"), Some(20));
    assert_eq!(options.get::<i32>("c"), Some(3));
}

#[test]
fn write_through_get_mut_is_found_afterwards() {
    let mut options = Options::new();
    options.set("list", vec![1u8]).set("other", 5i32);
    options.get_mut::<Vec<u8>>("list").unwrap().push(2);
    assert_eq!(options.get::<Vec<u8>>("list"), Some(vec![1u8, 2]));
    assert_eq!(options.get_ref::<Vec<u8>>("list"), Some(&vec![1u8, 2]));
    assert_eq!(options.get::<i32>("other"), Some(5));
    assert_eq!(options.names().count(), 2);
}

#[test]
fn names_are_those_that_were_set_each_once() {
    let mut first = Options::new();
    first.set("a", 1i32).set("b", true).set("c", 'c');
    let mut second = Options::new();
    second.set("c", 'c').set("a", 1i32).set("b", true).set("a", 2i32);

    let mut names = first.names().map(|name| name.as_str()).collect::<Vec<_>>();
    names.sort();
    assert_eq!(names, vec!["a", "b", "c"]);

    let mut names = second.names().map(|name| name.as_str()).collect::<Vec<_>>();
    names.sort();
    assert_eq!(names, vec!["a", "b", "c"]);
}

#[test]
fn repeated_reads_agree() {
    let mut options = Options::new();
    options.set("n", 3i32).set("s", "text".to_string());

    assert_eq!(options.get::<i32>("n"), options.get::<i32>("n"));
    assert_eq!(options.get_ref::<i32>("n"), options.get_ref::<i32>("n"));
    assert_eq!(options.get::<String>("s"), options.get::<String>("s"));
    assert_eq!(options.get::<String>("n"), options.get::<String>("n"));
    assert_eq!(options.get::<i32>("missing"), options.get::<i32>("missing"));
    assert_eq!(options.has("n"), options.has("n"));
}

#[test]
fn chained_sets_all_take_effect() {
    let mut options = Options::new();
    options.set("a", 1u8).set("b", 2u16).set("c", 3u32).set("d", 4u64);
    assert_eq!(options.get::<u8>("a"), Some(1));
    assert_eq!(options.get::<u16>("b"), Some(2));
    assert_eq!(options.get::<u32>("c"), Some(3));
    assert_eq!(options.get::<u64>("d"), Some(4));
}

#[test]
fn set_hands_back_the_store_itself() {
    let mut options = Options::new();
    let handle = options.set("a", 1i32);
    assert_eq!(handle.get::<i32>("a"), Some(1));
    handle.set("b", 2i32);
    assert_eq!(options.get::<i32>("b"), Some(2));
}

#[test]
fn name_is_copied_when_set() {
    let mut options = Options::new();
    {
        let name = String::from("short-lived");
        options.set(&name, 1i32);
    }
    assert_eq!(options.get::<i32>("short-lived"), Some(1));
}

#[test]
fn names_are_compared_exactly() {
    let mut options = Options::new();
    options.set("", 0i32).set("é", 1i32).set("e", 2i32).set("e\u{301}", 3i32).set("日本", 4i32);
    assert_eq!(options.get::<i32>(""), Some(0));
    assert_eq!(options.get::<i32>("é"), Some(1));
    assert_eq!(options.get::<i32>("e"), Some(2));
    assert_eq!(options.get::<i32>("e\u{301}"), Some(3));
    assert_eq!(options.get::<i32>("日本"), Some(4));
    assert_eq!(options.get::<i32>("日"), None);
    assert_eq!(options.names().count(), 5);
}

#[test]
fn store_can_be_printed_for_debugging() {
    let mut options = Options::new();
    options.set("answer", 42i32);
    let text = format!("{:?}", options);
    assert!(text.contains("answer"));
    assert!(text.contains("42"));
}
