use zero2prod::subscriber_name::name_is_valid;
use zero2prod::SubscriberName;

#[test]
fn a_256_grapheme_long_name_is_valid() {
    let name = "ё".repeat(256);
    assert!(SubscriberName::parse(name).is_ok());
}

#[test]
fn a_name_longer_than_256_graphemes_is_rejected() {
    let name = "ё".repeat(257);
    assert!(SubscriberName::parse(name).is_err());
}

#[test]
fn whitespace_only_names_are_rejected() {
    let name = " ".to_string();
    assert!(SubscriberName::parse(name).is_err());
}

#[test]
fn empty_string_is_rejected() {
    let name = "".to_string();
    assert!(SubscriberName::parse(name).is_err());
}

#[test]
fn names_containing_an_invalid_character_are_rejected() {
    let rejected_chars = ['/', '(', ')', '"', '<', '>', '\\', '{', '}'];

    for name in &rejected_chars {
        let name = name.to_string();
        assert!(SubscriberName::parse(name).is_err());
    }
}

#[test]
fn a_valid_name_is_parsed_successfully() {
    let name = "Ursula le Guin".to_string();
    assert!(SubscriberName::parse(name).is_ok());
}

#[test]
fn graphemes_not_characters_are_counted() {
    // Each cluster is a letter and a combining accent: 512 characters.
    let name = "e\u{301}".repeat(256);
    assert_eq!(name.chars().count(), 512);
    assert!(SubscriberName::parse(name).is_ok());
    let name = "e\u{301}".repeat(257);
    assert!(SubscriberName::parse(name).is_err());
}

#[test]
fn percent_sign_is_rejected() {
    assert!(SubscriberName::parse("Ursula 100%".to_string()).is_err());
}

#[test]
fn forbidden_character_inside_a_well_formed_name_is_rejected() {
    assert!(SubscriberName::parse("Ursula {le} Guin".to_string()).is_err());
    assert!(SubscriberName::parse("Ursula/Guin".to_string()).is_err());
}

#[test]
fn unicode_whitespace_only_names_are_rejected() {
    assert!(SubscriberName::parse("\t\n \u{a0}\u{3000}".to_string()).is_err());
    assert!(SubscriberName::parse("   ".to_string()).is_err());
}

#[test]
fn surrounding_whitespace_is_kept() {
    let name = SubscriberName::parse("  le guin ".to_string()).unwrap();
    assert_eq!(name.inner_ref(), "  le guin ");
    assert_eq!(name.as_ref(), "  le guin ");
}

#[test]
fn rejected_name_message_names_the_value() {
    let err = SubscriberName::parse("a<b".to_string()).err().unwrap();
    assert_eq!(err, "a<b is not a valid subscriber name.");
}

#[test]
fn name_rules_with_a_given_grapheme_count() {
    assert!(name_is_valid("Ursula", 256));
    assert!(!name_is_valid("Ursula", 257));
    assert!(!name_is_valid(" ", 1));
    assert!(!name_is_valid("a%", 2));
}
