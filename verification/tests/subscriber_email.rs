use zero2prod::domain::new_subscriber::FormData;
use zero2prod::domain::{NewSubscriber, SubscriberEmail};

#[test]
fn an_empty_address_is_rejected() {
    assert!(SubscriberEmail::parse("".to_string()).is_err());
}

#[test]
fn an_address_without_at_symbol_is_rejected() {
    assert!(SubscriberEmail::parse("ursuladomain.com".to_string()).is_err());
}

#[test]
fn an_address_without_subject_is_rejected() {
    assert!(SubscriberEmail::parse("@domain.com".to_string()).is_err());
}

#[test]
fn a_well_formed_address_is_accepted_unchanged() {
    let email = SubscriberEmail::parse("ursula_le_guin@gmail.com".to_string()).unwrap();
    assert_eq!(email.as_ref(), "ursula_le_guin@gmail.com");
    assert_eq!(email.to_string(), "ursula_le_guin@gmail.com");
}

#[test]
fn the_error_names_the_rejected_address() {
    let error = SubscriberEmail::parse("definitely-not-an-email".to_string()).unwrap_err();
    assert_eq!(error, "definitely-not-an-email is not a valid subscriber email");
}

#[test]
fn a_valid_form_makes_a_subscriber() {
    let form = FormData { email: "le.guin@example.com".to_string(), name: "le guin".to_string() };
    let subscriber = NewSubscriber::try_from(form).unwrap();
    assert_eq!(subscriber.email.as_ref(), "le.guin@example.com");
    assert_eq!(subscriber.name.as_ref(), "le guin");
}

#[test]
fn a_form_with_a_bad_name_reports_the_name() {
    let form = FormData { email: "le.guin@example.com".to_string(), name: "".to_string() };
    assert_eq!(NewSubscriber::try_from(form).unwrap_err(), " is not a valid subscriber name");
}

#[test]
fn a_form_with_a_bad_address_reports_the_address() {
    let form = FormData { email: "not-an-email".to_string(), name: "Ursula".to_string() };
    assert_eq!(
        NewSubscriber::try_from(form).unwrap_err(),
        "not-an-email is not a valid subscriber email"
    );
}

#[test]
fn a_form_with_both_wrong_reports_the_name_first() {
    let form = FormData { email: "not-an-email".to_string(), name: "(".to_string() };
    assert_eq!(NewSubscriber::try_from(form).unwrap_err(), "( is not a valid subscriber name");
}

#[test]
fn an_address_of_white_space_is_rejected() {
    assert!(SubscriberEmail::parse(" ".to_string()).is_err());
}
