use zero2prod::domain::subscriber_name::name_verdict;
use zero2prod::domain::{Email, NewSubscriber, SubscriberEmail, SubscriberName};
use zero2prod::routes::subscriptions::FormData;

#[test]
fn email_empty_string_is_rejected() {
    let email = "".to_string();
    let result = Email::parse(email);
    assert!(result.is_err());
}

#[test]
fn email_email_missing_at_symbol_is_rejected() {
    let email = "ursuladomain.com".to_string();
    let result = Email::parse(email);
    assert!(result.is_err());
}

#[test]
fn email_email_missing_subject_is_rejected() {
    let email = "@domain.com".to_string();
    let result = Email::parse(email);
    assert!(result.is_err());
}

#[test]
fn email_valid_emails_are_parsed_successfully() {
    for email in ["ursula_le_guin@gmail.com", "a@b.co", "first.last@example.org", "x+y@mail.example.com"] {
        let result = Email::parse(email.to_string());
        assert!(result.is_ok());
        assert_eq!(result.unwrap().as_ref(), email);
    }
}

#[test]
fn email_rejection_says_which_string_was_rejected() {
    let result = Email::parse("definitely-not-an-email".to_string());
    assert_eq!(result.unwrap_err(), "definitely-not-an-email is not a valid email.");
}

#[test]
fn email_is_cloned_and_compared_by_its_text() {
    let email = Email::parse("ursula_le_guin@gmail.com".to_string()).unwrap();
    let copy = email.clone();
    assert!(email == copy);
    assert_eq!(copy.to_string(), "ursula_le_guin@gmail.com");
    let other = Email::parse("someone@else.org".to_string()).unwrap();
    assert!(email != other);
}

#[test]
fn subscriber_email_empty_string_is_rejected() {
    let email = "".to_string();
    let result = SubscriberEmail::parse(email);
    assert!(result.is_err());
}

#[test]
fn subscriber_email_email_missing_at_symbol_is_rejected() {
    let email = "ursuladomain.com".to_string();
    let result = SubscriberEmail::parse(email);
    assert!(result.is_err());
}

#[test]
fn subscriber_email_email_missing_subject_is_rejected() {
    let email = "@domain.com".to_string();
    let result = SubscriberEmail::parse(email);
    assert!(result.is_err());
}

#[test]
fn subscriber_email_valid_emails_are_parsed_successfully() {
    for email in ["ursula_le_guin@gmail.com", "a@b.co", "first.last@example.org"] {
        let result = SubscriberEmail::parse(email.to_string());
        assert!(result.is_ok());
        assert_eq!(result.unwrap().as_ref(), email);
    }
}

#[test]
fn subscriber_email_rejection_says_which_string_was_rejected() {
    let result = SubscriberEmail::parse("ursuladomain.com".to_string());
    assert_eq!(result.unwrap_err(), "ursuladomain.com is not a valid subscriber email.");
}

#[test]
fn emails_with_an_over_long_local_part_are_rejected() {
    let local = "a".repeat(65);
    assert!(SubscriberEmail::parse(format!("{}@example.com", local)).is_err());
    let local = "a".repeat(64);
    assert!(SubscriberEmail::parse(format!("{}@example.com", local)).is_ok());
}

#[test]
fn a_256_grapheme_long_name_is_valid() {
    let name = "ё".repeat(256);
    let result = SubscriberName::parse(name);
    assert!(result.is_ok());
}

#[test]
fn a_name_longer_than_256_graphemes_is_rejected() {
    let name = "ё".repeat(257);
    let result = SubscriberName::parse(name);
    assert!(result.is_err());
}

#[test]
fn whitespace_only_names_are_rejected() {
    let name = " ".to_string();
    let result = SubscriberName::parse(name);
    assert!(result.is_err());
}

#[test]
fn subscriber_name_empty_string_is_rejected() {
    let name = "".to_string();
    let result = SubscriberName::parse(name);
    assert!(result.is_err());
}

#[test]
fn names_containing_an_invalid_character_are_rejected() {
    let invalid_characters = &['/', '(', ')', '"', '<', '>', '\\', '{', '}'];
    for name in invalid_characters {
        let name = name.to_string();
        let result = SubscriberName::parse(name);
        assert!(result.is_err());
    }
}

#[test]
fn a_valid_name_is_parsed_successfully() {
    let name = "Ursula Le Guin".to_string();
    let result = SubscriberName::parse(name);
    assert!(result.is_ok());
}

#[test]
fn names_are_measured_in_grapheme_clusters_not_in_characters() {
    // Each cluster is a letter with a combining mark: two characters, one cluster.
    let name = "a\u{310}".repeat(256);
    assert_eq!(name.chars().count(), 512);
    assert!(SubscriberName::parse(name).is_ok());
    let name = "a\u{310}".repeat(257);
    assert!(SubscriberName::parse(name).is_err());
}

#[test]
fn names_of_unicode_white_space_only_are_rejected() {
    for blank in ["\t", "\n", " \u{a0} ", "\u{2003}\u{3000}", "\u{1680}\u{2028}\u{2029}\u{202f}\u{205f}\u{85}"] {
        assert!(SubscriberName::parse(blank.to_string()).is_err());
    }
    // A zero-width space is no white space: such a name is not blank.
    assert!(SubscriberName::parse("\u{200b}".to_string()).is_ok());
}

#[test]
fn names_with_a_forbidden_character_anywhere_are_rejected() {
    for name in ["Ursula/Le Guin", "Ursula (Le Guin)", "<Ursula>", "Le {Guin}", "back\\slash", "quo\"te"] {
        assert!(SubscriberName::parse(name.to_string()).is_err());
    }
}

#[test]
fn name_rejection_says_which_string_was_rejected() {
    let result = SubscriberName::parse("<Ursula>".to_string());
    assert_eq!(result.unwrap_err(), "<Ursula> is not a valid subscriber name.");
}

#[test]
fn a_name_gives_back_the_string_it_was_parsed_from() {
    let name = SubscriberName::parse("  Ursula Le Guin ".to_string()).unwrap();
    assert_eq!(name.as_ref(), "  Ursula Le Guin ");
    assert_eq!(name.inner(), "  Ursula Le Guin ");
}

#[test]
fn the_count_of_graphemes_decides_together_with_the_text() {
    assert!(name_verdict("Ursula", 6));
    assert!(name_verdict("Ursula", 256));
    assert!(!name_verdict("Ursula", 257));
    assert!(!name_verdict("  ", 2));
    assert!(!name_verdict("a{b", 3));
}

#[test]
fn a_form_is_validated_name_first() {
    let form = FormData { email: "not-an-email".to_string(), name: "".to_string() };
    assert_eq!(NewSubscriber::try_from(form).unwrap_err(), " is not a valid subscriber name.");
    let form = FormData { email: "not-an-email".to_string(), name: "Ursula".to_string() };
    assert_eq!(
        NewSubscriber::try_from(form).unwrap_err(),
        "not-an-email is not a valid subscriber email."
    );
    let form = FormData { email: "ursula_le_guin@gmail.com".to_string(), name: "le guin".to_string() };
    let new_subscriber = NewSubscriber::try_from(form).unwrap();
    assert_eq!(new_subscriber.email.as_ref(), "ursula_le_guin@gmail.com");
    assert_eq!(new_subscriber.name.as_ref(), "le guin");
}

#[test]
fn a_verdict_on_an_address_decides_whether_it_is_wrapped() {
    let accepted = Email::from_verdict("ursula_le_guin@gmail.com".to_string(), true);
    assert_eq!(accepted.unwrap().as_ref(), "ursula_le_guin@gmail.com");
    let rejected = Email::from_verdict("".to_string(), false);
    assert_eq!(rejected.unwrap_err(), " is not a valid email.");
    let accepted = SubscriberEmail::from_verdict("ursula_le_guin@gmail.com".to_string(), true);
    assert_eq!(accepted.unwrap().as_ref(), "ursula_le_guin@gmail.com");
    let rejected = SubscriberEmail::from_verdict("ursuladomain.com".to_string(), false);
    assert_eq!(rejected.unwrap_err(), "ursuladomain.com is not a valid subscriber email.");
}

#[test]
fn a_counted_name_is_wrapped_or_turned_down() {
    let accepted = SubscriberName::from_counted("Ursula Le Guin".to_string(), 14);
    assert_eq!(accepted.unwrap().as_ref(), "Ursula Le Guin");
    let rejected = SubscriberName::from_counted("(Ursula)".to_string(), 8);
    assert_eq!(rejected.unwrap_err(), "(Ursula) is not a valid subscriber name.");
    let rejected = SubscriberName::from_counted(" ".to_string(), 1);
    assert_eq!(rejected.unwrap_err(), "  is not a valid subscriber name.");
}
