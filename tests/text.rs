use basics::{append_and_count, count_char, string_length};

#[test]
fn test_string_length() {
    assert_eq!(string_length("hello"), 5, "Should return 5 for 'hello'");
    assert_eq!(string_length("rust"), 4, "Should return 4 for 'rust'");
    assert_eq!(string_length(""), 0, "Should return 0 for empty string");
    assert_eq!(string_length("aaa"), 3, "Should return 3 for 'aaa'");
}

#[test]
fn string_length_counts_characters_not_bytes() {
    assert_eq!(string_length("héllo"), 5);
    assert_eq!(string_length("日本"), 2);
}

#[test]
fn string_length_repeats() {
    let s = "repeat me";
    assert_eq!(string_length(s), string_length(s));
}

#[test]
fn test_append_and_count_basic() {
    let mut input_string = String::from("Hello");
    let suffix = " World";
    let new_length = append_and_count(&mut input_string, suffix);

    assert_eq!(new_length, 11);
    assert_eq!(input_string, "Hello World");
}

#[test]
fn test_append_and_count_empty_string() {
    let mut input_string = String::new();
    let suffix = "Rust";
    let new_length = append_and_count(&mut input_string, suffix);

    assert_eq!(new_length, 4);
    assert_eq!(input_string, "Rust");
}

#[test]
fn test_append_and_count_empty_suffix() {
    let mut input_string = String::from("Hello");
    let suffix = "";
    let new_length = append_and_count(&mut input_string, suffix);

    assert_eq!(new_length, 5);
    assert_eq!(input_string, "Hello");
}

#[test]
fn append_and_count_keeps_growing() {
    let mut s = String::from("ab");
    assert_eq!(append_and_count(&mut s, "cd"), 4);
    assert_eq!(append_and_count(&mut s, "cd"), 6);
    assert_eq!(s, "abcdcd");
}

#[test]
fn append_and_count_returns_characters() {
    let mut s = String::from("é");
    assert_eq!(append_and_count(&mut s, "ü!"), 3);
    assert_eq!(s, "éü!");
}

#[test]
fn test_count_char() {
    assert_eq!(count_char("hello", 'l'), 2, "Should count 2 'l's in 'hello'");
    assert_eq!(count_char("rust", 'x'), 0, "Should count 0 'x's in 'rust'");
    assert_eq!(count_char("", 'a'), 0, "Should count 0 in empty string");
    assert_eq!(count_char("aaa", 'a'), 3, "Should count 3 'a's in 'aaa'");
}

#[test]
fn count_char_is_case_sensitive() {
    assert_eq!(count_char("AaAa", 'a'), 2);
    assert_eq!(count_char("naïve ïï", 'ï'), 3);
}

#[test]
fn count_char_repeats() {
    assert_eq!(count_char("banana", 'a'), count_char("banana", 'a'));
}

#[test]
fn count_char_uniform_text_counts_every_character() {
    assert_eq!(count_char("zzzzz", 'z'), string_length("zzzzz"));
    assert_eq!(count_char("ééé", 'é'), 3);
}
