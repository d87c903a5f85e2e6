use zero2prod::idempotency::{IdempotencyKey, KeyError};

#[test]
fn an_empty_key_is_rejected() {
    assert_eq!(IdempotencyKey::try_from(String::new()).err(), Some(KeyError::Empty));
}

#[test]
fn a_key_of_49_characters_is_accepted() {
    let key = IdempotencyKey::try_from("k".repeat(49)).unwrap();
    assert_eq!(key.as_ref(), "k".repeat(49));
}

#[test]
fn a_key_of_50_characters_is_rejected() {
    assert_eq!(IdempotencyKey::try_from("k".repeat(50)).err(), Some(KeyError::TooLong));
}

#[test]
fn a_key_of_one_character_is_accepted() {
    assert!(IdempotencyKey::try_from("k".to_string()).is_ok());
}

#[test]
fn the_length_of_a_key_is_counted_in_characters() {
    // 49 characters of two bytes each.
    let key = "é".repeat(49);
    assert_eq!(key.len(), 98);
    assert!(IdempotencyKey::try_from(key).is_ok());
    assert_eq!(IdempotencyKey::try_from("é".repeat(50)).err(), Some(KeyError::TooLong));
}

#[test]
fn a_key_gives_back_the_string_it_was_made_from() {
    let key = IdempotencyKey::try_from("abc123".to_string()).unwrap();
    assert_eq!(key.into_string(), "abc123");
}

#[test]
fn key_errors_say_what_is_wrong() {
    assert_eq!(KeyError::Empty.message(), "The idempotency key cannot be empty");
    assert_eq!(
        KeyError::TooLong.message(),
        "The idempotency key must be shorter than 50 characters"
    );
}
