use zero2prod::subscriber_email::email_is_valid;
use zero2prod::SubscriberEmail;

#[test]
fn a_valid_email_is_parsed_successfully() {
    let email = SubscriberEmail::parse("ursula_le_guin@gmail.com".to_string()).unwrap();
    assert_eq!(email.as_ref(), "ursula_le_guin@gmail.com");
}

#[test]
fn empty_email_is_rejected() {
    assert!(SubscriberEmail::parse("".to_string()).is_err());
}

#[test]
fn email_missing_at_symbol_is_rejected() {
    assert!(SubscriberEmail::parse("ursuladomain.com".to_string()).is_err());
}

#[test]
fn email_missing_subject_is_rejected() {
    assert!(SubscriberEmail::parse("@domain.com".to_string()).is_err());
}

#[test]
fn email_missing_domain_is_rejected() {
    assert!(SubscriberEmail::parse("ursula@".to_string()).is_err());
}

#[test]
fn malformed_domains_are_rejected() {
    assert!(!email_is_valid("ursula@.com"));
    assert!(!email_is_valid("ursula@gmail."));
    assert!(!email_is_valid("ursula@gmail..com"));
    assert!(!email_is_valid("ursula@gm ail.com"));
    assert!(!email_is_valid("ursula@gmail@com"));
    assert!(!email_is_valid("urs ula@gmail.com"));
}

#[test]
fn single_label_and_hyphenated_domains_are_accepted() {
    assert!(email_is_valid("a@b"));
    assert!(email_is_valid("first.last+tag@mail-server.example.org"));
}

#[test]
fn rejected_email_message_names_the_value() {
    let err = SubscriberEmail::parse("nope".to_string()).err().unwrap();
    assert_eq!(err, "nope is not a valid subscriber email.");
}
