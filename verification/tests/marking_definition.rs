use metaman::domain::MarkingDefinition;

#[test]
fn marking_definition_a_256_grapheme_long_definition_is_valid() {
    let definition = "é".repeat(256);
    assert!(MarkingDefinition::parse(definition).is_ok());
}

#[test]
fn marking_definition_a_definition_longer_than_256_graphemes_is_rejected() {
    let definition = "a".repeat(257);
    assert!(MarkingDefinition::parse(definition).is_err());
}

#[test]
fn marking_definition_a_definition_with_only_whitespace_is_rejected() {
    let definition = "      ".to_string();
    assert!(MarkingDefinition::parse(definition).is_err());
}

#[test]
fn marking_definition_an_empty_definition_is_rejected() {
    let definition = "".to_string();
    assert!(MarkingDefinition::parse(definition).is_err());
}

#[test]
fn marking_definition_definition_with_invalid_character_are_rejected() {
    for definition in &['/', '(', ')', '"', '<', '>', '\\', '{', '}'] {
        let definition = definition.to_string();
        assert!(MarkingDefinition::parse(definition).is_err());
    }
}

#[test]
fn marking_definition_a_valid_definition_is_parsed_successfully() {
    let definition = "This could be a valid statement.".to_string();
    assert!(MarkingDefinition::parse(definition).is_ok());
}

#[test]
fn a_definition_keeps_its_text() {
    let definition = MarkingDefinition::parse("  TLP Red ".to_string()).unwrap();
    let text: &str = definition.as_ref();
    assert_eq!(text, "  TLP Red ");
}

#[test]
fn a_rejected_definition_is_named_in_the_message() {
    let message = MarkingDefinition::parse("a<b".to_string()).unwrap_err();
    assert_eq!(message, "a<b is not a valid name for a marking.");
    let message = MarkingDefinition::parse("   ".to_string()).unwrap_err();
    assert_eq!(message, "    is not a valid name for a marking.");
}

#[test]
fn definitions_of_white_space_are_rejected() {
    for definition in &[
        " ",
        "\t",
        "\n",
        "\r\n",
        "\u{b}",
        "\u{c}",
        "\u{85}",
        "\u{a0}",
        "\u{1680}",
        "\u{2000}",
        "\u{200a}",
        "\u{2028}",
        "\u{2029}",
        "\u{202f}",
        "\u{205f}",
        "\u{3000}",
        " \t\n\u{3000} ",
    ] {
        assert!(MarkingDefinition::parse(definition.to_string()).is_err());
    }
}

#[test]
fn a_definition_with_white_space_around_it_is_valid() {
    assert!(MarkingDefinition::parse(" x".to_string()).is_ok());
    assert!(MarkingDefinition::parse("x ".to_string()).is_ok());
    assert!(MarkingDefinition::parse("\tx\n".to_string()).is_ok());
    assert!(MarkingDefinition::parse("\u{200b}".to_string()).is_ok());
}

#[test]
fn a_definition_may_hold_any_other_character() {
    for definition in &[
        "TLP Red",
        "Mixed CASE, with punctuation: yes; really! 'quoted' - dashed_underscored?",
        "àéîõü ß 日本語 Ελληνικά",
        "[square] |pipe| #hash %percent &and *star +plus =equals ~tilde ^caret",
        "1234567890",
    ] {
        assert!(MarkingDefinition::parse(definition.to_string()).is_ok(), "{}", definition);
    }
}

#[test]
fn a_forbidden_character_anywhere_is_rejected() {
    for forbidden in &['/', '(', ')', '"', '<', '>', '\\', '{', '}'] {
        assert!(MarkingDefinition::parse(format!("{}tail", forbidden)).is_err());
        assert!(MarkingDefinition::parse(format!("head{}", forbidden)).is_err());
        assert!(MarkingDefinition::parse(format!("head{}tail", forbidden)).is_err());
    }
}

#[test]
fn the_definition_bound_counts_grapheme_clusters() {
    let cluster = "e\u{301}";
    assert!(MarkingDefinition::parse(cluster.repeat(256)).is_ok());
    assert!(MarkingDefinition::parse(cluster.repeat(257)).is_err());
    let flag = "🇷🇺";
    assert!(MarkingDefinition::parse(flag.repeat(256)).is_ok());
    assert!(MarkingDefinition::parse(flag.repeat(257)).is_err());
    assert!(MarkingDefinition::parse("é".repeat(257)).is_err());
    assert!(MarkingDefinition::parse("a".repeat(255)).is_ok());
    assert!(MarkingDefinition::parse("a".repeat(256)).is_ok());
}

#[test]
fn a_line_break_of_two_characters_is_one_cluster() {
    let mut definition = "a".repeat(255);
    definition.push_str("\r\n");
    assert_eq!(definition.chars().count(), 257);
    assert!(MarkingDefinition::parse(definition).is_ok());
}

#[test]
fn the_definition_is_decided_on_what_is_told() {
    assert!(MarkingDefinition::decide("TLP Red", false, 7));
    assert!(MarkingDefinition::decide("TLP Red", false, 256));
    assert!(!MarkingDefinition::decide("TLP Red", false, 257));
    assert!(!MarkingDefinition::decide("TLP Red", true, 7));
    assert!(!MarkingDefinition::decide("a<b", false, 3));
    assert!(MarkingDefinition::decide("", false, 0));
}

#[test]
fn the_text_of_a_definition_parses_to_the_same_definition() {
    for text in &["x", "TLP Red", " This could be a valid statement. "] {
        let first = MarkingDefinition::parse(text.to_string()).unwrap();
        let canonical: &str = first.as_ref();
        let second = MarkingDefinition::parse(canonical.to_string()).unwrap();
        let again: &str = second.as_ref();
        assert_eq!(canonical, again);
        assert_eq!(again, *text);
    }
}
