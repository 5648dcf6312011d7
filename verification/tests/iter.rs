use options::Name;
use options::Options;
use options::Value;

fn setup() -> Options {
    let mut options = Options::new();
    options.set("a", 42).set("b", true).set("c", "Hi, there!");
    options
}

#[test]
fn empty_store_has_nothing_to_walk() {
    let mut options = Options::new();
    assert!(options.names().next().is_none());
    assert!(options.iter().next().is_none());
    assert!(options.iter_mut().next().is_none());
}

#[test]
fn iter_hands_out_every_parameter_once() {
    let options = setup();
    let mut seen: Vec<(&Name, &Value)> = options.iter().collect();
    seen.sort_by(|x, y| x.0.cmp(y.0));

    assert_eq!(seen.len(), 3);
    assert_eq!(seen[0].0, "a");
    assert_eq!(seen[0].1.get::<i32>(), Some(42));
    assert_eq!(seen[1].0, "b");
    assert_eq!(seen[1].1.get::<bool>(), Some(true));
    assert_eq!(seen[2].0, "c");
    assert_eq!(seen[2].1.get::<&str>(), Some("Hi, there!"));
}

#[test]
fn iter_ends_and_stays_ended() {
    let options = setup();
    let mut parameters = options.iter();
    assert!(parameters.next().is_some());
    assert!(parameters.next().is_some());
    assert!(parameters.next().is_some());
    assert!(parameters.next().is_none());
    assert!(parameters.next().is_none());
}

#[test]
fn names_end_and_stay_ended() {
    let options = setup();
    let mut names = options.names();
    assert!(names.next().is_some());
    assert!(names.next().is_some());
    assert!(names.next().is_some());
    assert!(names.next().is_none());
    assert!(names.next().is_none());
}

#[test]
fn each_call_starts_a_new_walk() {
    let mut options = setup();
    assert_eq!(options.names().count(), 3);
    assert_eq!(options.names().count(), 3);
    options.set("d", 1u8);
    assert_eq!(options.names().count(), 4);
    assert_eq!(options.iter().count(), 4);
}

#[test]
fn store_can_be_walked_by_reference() {
    let options = setup();
    let mut count = 0;
    for (name, value) in &options {
        assert!(options.has(name));
        if name == "a" {
            assert_eq!(value.get::<i32>(), Some(42));
        }
        count += 1;
    }
    assert_eq!(count, 3);
}

#[test]
fn iter_mut_hands_out_every_parameter_once() {
    let mut options = setup();
    let mut seen = Vec::new();
    let mut parameters = options.iter_mut();
    while let Some((name, _)) = parameters.next() {
        seen.push(name.clone());
    }
    assert!(parameters.next().is_none());
    seen.sort();
    assert_eq!(seen, vec!["a", "b", "c"]);
}

#[test]
fn iter_mut_writes_in_place() {
    let mut options = setup();
    let mut parameters = options.iter_mut();
    while let Some((name, value)) = parameters.next() {
        if name == "a" {
            *value.get_mut::<i32>().unwrap() += 1;
        }
    }
    assert_eq!(options.get::<i32>("a"), Some(43));
    assert_eq!(options.get::<bool>("b"), Some(true));
    assert_eq!(options.get::<&str>("c"), Some("Hi, there!"));
}

#[test]
fn iter_mut_can_change_the_types() {
    let mut options = setup();
    let mut parameters = options.iter_mut();
    while let Some((name, value)) = parameters.next() {
        let text = name.clone();
        value.set(text);
    }
    assert_eq!(options.get::<String>("a"), Some("a".to_string()));
    assert_eq!(options.get::<String>("b"), Some("b".to_string()));
    assert_eq!(options.get::<String>("c"), Some("c".to_string()));
    assert_eq!(options.get::<i32>("a"), None);
    assert_eq!(options.names().count(), 3);
}

#[test]
fn walk_left_early_keeps_what_was_written() {
    let mut options = setup();
    let first = {
        let mut parameters = options.iter_mut();
        let (name, value) = parameters.next().unwrap();
        value.set(0u8);
        name.clone()
    };
    assert_eq!(options.get::<u8>(&first), Some(0));
    assert_eq!(options.names().count(), 3);
}

#[test]
fn overwritten_name_is_walked_once() {
    let mut options = Options::new();
    options.set("a", 1i32).set("a", 2i32).set("a", 3i32);
    let all: Vec<(&Name, &Value)> = options.iter().collect();
    assert_eq!(all.len(), 1);
    assert_eq!(all[0].0, "a");
    assert_eq!(all[0].1.get::<i32>(), Some(3));
}
