use katarl::text::{contains_text, is_whitespace, split_words, to_chars};

#[test]
fn contains_finds_a_part_of_the_name() {
    assert!(contains_text("USB Keyboard", "Keyboard"));
    assert!(contains_text("USB Keyboard", "USB"));
    assert!(contains_text("USB Keyboard", "B K"));
    assert!(contains_text("USB Keyboard", "USB Keyboard"));
    assert!(contains_text("USB Keyboard", ""));
    assert!(contains_text("", ""));
}

#[test]
fn contains_tells_upper_from_lower_case() {
    assert!(!contains_text("USB Keyboard", "keyboard"));
    assert!(!contains_text("USB Keyboard", "Keyboards"));
    assert!(!contains_text("", "a"));
    assert!(!contains_text("ab", "abc"));
}

#[test]
fn contains_works_beyond_ascii() {
    assert!(contains_text("Clavier é 1", "é 1"));
    assert!(!contains_text("Clavier e 1", "é"));
}

#[test]
fn split_words_splits_at_any_white_space() {
    assert_eq!(split_words("say hello"), vec![String::from("say"), String::from("hello")]);
    assert_eq!(
        split_words("  a\tb\n\nc\u{3000}d\u{a0}e  "),
        vec!["a", "b", "c", "d", "e"].into_iter().map(String::from).collect::<Vec<String>>()
    );
    assert_eq!(split_words("one"), vec![String::from("one")]);
}

#[test]
fn split_words_of_white_space_is_empty() {
    assert_eq!(split_words(""), Vec::<String>::new());
    assert_eq!(split_words(" \t \n"), Vec::<String>::new());
}

#[test]
fn white_space_is_what_std_calls_so() {
    let mut n: u32 = 0;
    while n < 0x11_0000 {
        if let Some(c) = char::from_u32(n) {
            assert_eq!(is_whitespace(c), c.is_whitespace());
        }
        n += 1;
    }
}

#[test]
fn to_chars_lists_the_characters() {
    assert_eq!(to_chars("aé\n"), vec!['a', 'é', '\n']);
    assert_eq!(to_chars(""), Vec::<char>::new());
}
