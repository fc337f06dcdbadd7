use offline_vsix::text::{chars_of, find_char, owned, same_optional_text, same_text};

#[test]
fn chars_of_gives_the_characters_in_order() {
    assert_eq!(chars_of(""), Vec::<char>::new());
    assert_eq!(chars_of("a.b"), vec!['a', '.', 'b']);
    assert_eq!(chars_of("ü€😀"), vec!['ü', '€', '😀']);
}

#[test]
fn same_text_compares_character_by_character() {
    assert!(same_text("", ""));
    assert!(same_text("gzip", "gzip"));
    assert!(same_text("ü€😀", "ü€😀"));
    assert!(!same_text("gzip", "gzi"));
    assert!(!same_text("gzi", "gzip"));
    assert!(!same_text("gzip", "gziq"));
    assert!(!same_text("gzip", "GZIP"));
    assert!(!same_text("", " "));
    assert!(!same_text("ü", "u"));
}

#[test]
fn same_optional_text_tells_nothing_from_the_empty_text() {
    let none: Option<String> = None;
    assert!(same_optional_text(&none, &None));
    assert!(same_optional_text(
        &Some("web".to_string()),
        &Some("web".to_string())
    ));
    assert!(!same_optional_text(&Some(String::new()), &None));
    assert!(!same_optional_text(&None, &Some("web".to_string())));
    assert!(!same_optional_text(
        &Some("web".to_string()),
        &Some("wee".to_string())
    ));
}

#[test]
fn find_char_gives_the_first_position_from_the_start() {
    let chars = chars_of("1.22.333");
    assert_eq!(find_char(&chars, 0, '.'), Some(1));
    assert_eq!(find_char(&chars, 1, '.'), Some(1));
    assert_eq!(find_char(&chars, 2, '.'), Some(4));
    assert_eq!(find_char(&chars, 5, '.'), None);
    assert_eq!(find_char(&chars, 8, '.'), None);
    assert_eq!(find_char(&chars, 0, '3'), Some(5));
    assert_eq!(find_char(&chars, 0, 'x'), None);
    assert_eq!(find_char(&Vec::new(), 0, '.'), None);
}

#[test]
fn owned_copies_the_text() {
    assert_eq!(owned(""), "");
    assert_eq!(owned("ms.python"), "ms.python");
}
