use metaman::domain::MarkingName;
use metaman::domain::MAX_GRAPHEMES;

#[test]
fn marking_name_a_256_grapheme_long_name_is_valid() {
    let name = "e".repeat(256);
    assert!(MarkingName::parse(name).is_ok());
}

#[test]
fn marking_name_a_name_longer_than_256_graphemes_is_rejected() {
    let name = "a".repeat(257);
    assert!(MarkingName::parse(name).is_err());
}

#[test]
fn marking_name_a_name_with_only_whitespace_is_rejected() {
    let name = "".to_string();
    assert!(MarkingName::parse(name).is_err());
}

#[test]
fn marking_name_an_empty_name_is_rejected() {
    let name = "".to_string();
    assert!(MarkingName::parse(name).is_err());
}

#[test]
fn marking_name_name_with_invalid_character_are_rejected() {
    for name in &[
        "foo1",
        "foo bar",
        "foo's bar",
        "<foo>",
        "Foo",
        "FOO",
        "foo-bar",
    ] {
        let name = name.to_string();
        assert!(MarkingName::parse(name).is_err());
    }
}

#[test]
fn marking_name_a_valid_name_is_parsed_successfully() {
    let name = "this_would_be_a_valid_name".to_string();
    assert!(MarkingName::parse(name).is_ok());
}

#[test]
fn a_name_keeps_its_text() {
    let name = MarkingName::parse("tlp_red".to_string()).unwrap();
    let text: &str = name.as_ref();
    assert_eq!(text, "tlp_red");
}

#[test]
fn a_rejected_name_is_named_in_the_message() {
    let message = MarkingName::parse("Foo".to_string()).unwrap_err();
    assert_eq!(message, "Foo is not a valid name for a marking.");
    let message = MarkingName::parse("".to_string()).unwrap_err();
    assert_eq!(message, " is not a valid name for a marking.");
}

#[test]
fn names_of_white_space_are_rejected() {
    for name in &[" ", "   ", "\t", "\n", "\r\n", "\u{a0}", "\u{2003}", "\u{3000}", " \t\n "] {
        assert!(MarkingName::parse(name.to_string()).is_err());
    }
}

#[test]
fn a_name_is_not_trimmed_before_its_characters_are_judged() {
    assert!(MarkingName::parse(" foo".to_string()).is_err());
    assert!(MarkingName::parse("foo ".to_string()).is_err());
    assert!(MarkingName::parse("foo\n".to_string()).is_err());
}

#[test]
fn the_alphabet_is_the_small_letters_and_the_underscore() {
    let alphabet = MarkingName::alphabet();
    assert_eq!(alphabet.len(), 27);
    let expected: Vec<char> = "abcdefghijklmnopqrstuvwxyz_".chars().collect();
    assert_eq!(alphabet, expected);
}

#[test]
fn every_letter_of_the_alphabet_is_a_name() {
    for letter in MarkingName::alphabet() {
        assert!(MarkingName::parse(letter.to_string()).is_ok());
    }
    assert!(MarkingName::parse("abcdefghijklmnopqrstuvwxyz_".to_string()).is_ok());
    assert!(MarkingName::parse("_".to_string()).is_ok());
    assert!(MarkingName::parse("___".to_string()).is_ok());
}

#[test]
fn characters_next_to_the_alphabet_are_rejected() {
    for name in &["`", "{", "@", "[", "A", "Z", "0", "9", "^", "é", "ß", "а", "a\u{301}", "-", "."] {
        assert!(MarkingName::parse(name.to_string()).is_err(), "{}", name);
    }
}

#[test]
fn the_name_bound_is_on_the_limit() {
    assert_eq!(MAX_GRAPHEMES, 256);
    assert!(MarkingName::parse("a".repeat(255)).is_ok());
    assert!(MarkingName::parse("a".repeat(256)).is_ok());
    assert!(MarkingName::parse("a".repeat(257)).is_err());
    assert!(MarkingName::parse("a".repeat(1000)).is_err());
}

#[test]
fn the_name_is_decided_on_what_is_told() {
    assert!(MarkingName::decide("tlp_red", false, 7));
    assert!(MarkingName::decide("tlp_red", false, 256));
    assert!(!MarkingName::decide("tlp_red", false, 257));
    assert!(!MarkingName::decide("tlp_red", true, 7));
    assert!(!MarkingName::decide("Foo", false, 3));
    assert!(MarkingName::decide("", false, 0));
    assert!(!MarkingName::decide("", true, 0));
}

#[test]
fn the_text_of_a_name_parses_to_the_same_name() {
    for text in &["a", "tlp_red", "this_would_be_a_valid_name", "_"] {
        let first = MarkingName::parse(text.to_string()).unwrap();
        let canonical: &str = first.as_ref();
        let second = MarkingName::parse(canonical.to_string()).unwrap();
        let again: &str = second.as_ref();
        assert_eq!(canonical, again);
        assert_eq!(again, *text);
    }
}
