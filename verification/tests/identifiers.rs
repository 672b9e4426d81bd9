use builder::ident::{classify_char, identifier_from_classes, is_identifier, CharClass};

#[test]
fn plain_names_are_identifiers() {
    assert!(is_identifier("arg"));
    assert!(is_identifier("_"));
    assert!(is_identifier("_1"));
    assert!(is_identifier("snake_case_9"));
}

#[test]
fn names_that_are_no_identifiers() {
    assert!(!is_identifier(""));
    assert!(!is_identifier("1"));
    assert!(!is_identifier("1abc"));
    assert!(!is_identifier("a-b"));
    assert!(!is_identifier(" arg"));
    assert!(!is_identifier("arg "));
    assert!(!is_identifier("r#arg"));
}

#[test]
fn letters_outside_ascii_may_start_an_identifier() {
    assert!(is_identifier("\u{e9}t\u{e9}"));
    assert!(!is_identifier("\u{2603}"));
}

fn class(digit: bool, start: bool, cont: bool) -> CharClass {
    CharClass { digit, start, cont }
}

#[test]
fn characters_are_classified() {
    assert_eq!(classify_char('a'), class(false, true, true));
    assert_eq!(classify_char('Z'), class(false, true, true));
    assert_eq!(classify_char('_'), class(false, true, true));
    assert_eq!(classify_char('0'), class(true, false, true));
    assert_eq!(classify_char('9'), class(true, false, true));
    assert_eq!(classify_char('-'), class(false, false, false));
    assert_eq!(classify_char(' '), class(false, false, false));
    assert_eq!(classify_char('#'), class(false, false, false));
    assert_eq!(classify_char('\u{e9}'), class(false, true, true));
    // A combining accent may go on an identifier, but not begin one.
    assert_eq!(classify_char('\u{301}'), class(false, false, true));
}

#[test]
fn the_rule_goes_by_the_classes() {
    let letter = class(false, true, true);
    let digit = class(true, false, true);
    let other = class(false, false, false);
    let follower = class(false, false, true);
    assert!(!identifier_from_classes(&vec![]));
    assert!(identifier_from_classes(&vec![letter]));
    assert!(identifier_from_classes(&vec![letter, digit, follower, letter]));
    assert!(!identifier_from_classes(&vec![digit]));
    assert!(!identifier_from_classes(&vec![digit, letter]));
    assert!(!identifier_from_classes(&vec![follower, letter]));
    assert!(!identifier_from_classes(&vec![other]));
    assert!(!identifier_from_classes(&vec![letter, other]));
    assert!(!identifier_from_classes(&vec![letter, letter, other, letter]));
    // Digits that could begin an identifier still do not make one by themselves.
    let odd_digit = class(true, true, true);
    assert!(!identifier_from_classes(&vec![odd_digit]));
    assert!(!identifier_from_classes(&vec![odd_digit, odd_digit]));
    assert!(identifier_from_classes(&vec![odd_digit, letter]));
}
