use newsletter::domain::subscriber_name::{is_forbidden_character, MAX_NAME_GRAPHEMES};
use newsletter::domain::SubscriberName;

#[test]
fn given_a_256_grapheme_value_then_it_should_return_ok() {
    let value = "ё".repeat(256);
    assert!(SubscriberName::parse(value).is_ok());
}

#[test]
fn given_a_value_longer_than_256_then_it_should_return_err() {
    let value = "a".repeat(257);
    assert!(SubscriberName::parse(value).is_err());
}

#[test]
fn given_a_value_with_whitespace_only_then_it_should_return_err() {
    let value = "   ".to_string();
    assert!(SubscriberName::parse(value).is_err());
}

#[test]
fn given_a_value_with_invalid_characters_then_it_should_return_err() {
    let invalid_characters = ['/', '(', ')', '"', '<', '>', '\\', '{', '}', '|'];

    for character in invalid_characters.iter() {
        let value = character.to_string();
        assert!(SubscriberName::parse(value).is_err());
    }
}

#[test]
fn given_a_valid_value_then_it_should_return_ok() {
    let value = "Paul MaCarty".to_string();
    assert!(SubscriberName::parse(value).is_ok());
}

#[test]
fn a_parsed_name_reads_back_as_it_was_given() {
    let name = SubscriberName::parse("Ursula Le Guin".to_string()).unwrap();
    assert_eq!(name.as_ref(), "Ursula Le Guin");
}

#[test]
fn a_name_keeps_the_white_space_around_it() {
    let name = SubscriberName::parse("  le guin ".to_string()).unwrap();
    assert_eq!(name.as_ref(), "  le guin ");
}

#[test]
fn the_empty_name_is_rejected() {
    assert!(SubscriberName::parse(String::new()).is_err());
}

#[test]
fn white_space_of_any_kind_makes_no_name() {
    assert!(SubscriberName::parse("\t\n\u{a0}\u{3000} ".to_string()).is_err());
}

#[test]
fn a_rejected_name_is_reported_with_its_value() {
    let error = SubscriberName::parse("{le guin}".to_string()).unwrap_err();
    assert_eq!(
        error,
        "The value is not a valid subscriber name. value = {le guin}"
    );
    assert_eq!(
        SubscriberName::rejection(""),
        "The value is not a valid subscriber name. value = "
    );
}

#[test]
fn a_forbidden_character_is_found_anywhere_in_the_name() {
    for character in ['/', '(', ')', '"', '<', '>', '\\', '{', '}', '|'] {
        assert!(is_forbidden_character(character));
        assert!(SubscriberName::parse(format!("le{}guin", character)).is_err());
        assert!(SubscriberName::parse(format!("le guin{}", character)).is_err());
    }
    for character in ['a', ' ', '-', '\'', '.', '[', ']', 'ё'] {
        assert!(!is_forbidden_character(character));
    }
}

#[test]
fn the_limit_counts_grapheme_clusters_not_characters() {
    // One cluster each: a letter followed by a combining accent.
    let clusters = "e\u{301}".repeat(MAX_NAME_GRAPHEMES);
    assert_eq!(clusters.chars().count(), 512);
    assert!(SubscriberName::parse(clusters).is_ok());
    let one_more = "e\u{301}".repeat(MAX_NAME_GRAPHEMES + 1);
    assert!(SubscriberName::parse(one_more).is_err());
}

#[test]
fn the_grapheme_count_decides_given_the_text() {
    assert!(SubscriberName::is_acceptable("le guin", 7));
    assert!(SubscriberName::is_acceptable("le guin", 256));
    assert!(!SubscriberName::is_acceptable("le guin", 257));
    assert!(!SubscriberName::is_acceptable("   ", 3));
    assert!(!SubscriberName::is_acceptable("le|guin", 7));
    assert!(!SubscriberName::is_acceptable("", 0));
}

#[test]
fn names_compare_by_their_text() {
    let first = SubscriberName::parse("le guin".to_string()).unwrap();
    let second = SubscriberName::parse("le guin".to_string()).unwrap();
    let other = SubscriberName::parse("Le Guin".to_string()).unwrap();
    assert!(first == second);
    assert!(first != other);
}
