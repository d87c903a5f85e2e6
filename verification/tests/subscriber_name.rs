use zero2prod::domain::SubscriberName;

#[test]
fn domain_a_256_grapheme_long_name_is_valid() {
    let name = "a̐".repeat(256);
    assert!(SubscriberName::parse(name).is_ok());
}

#[test]
fn domain_a_name_longer_than_256_graphemes_is_rejected() {
    let name = "a̐".repeat(257);
    assert!(SubscriberName::parse(name).is_err());
}

#[test]
fn domain_whitespace_only_names_are_rejected() {
    let name = " ".to_string();
    assert!(SubscriberName::parse(name).is_err());
}

#[test]
fn domain_empty_string_is_rejected() {
    let name = "".to_string();
    assert!(SubscriberName::parse(name).is_err());
}

#[test]
fn names_containing_an_invalid_character_are_rejected() {
    for name in &['/', '(', ')', '"', '<', '>', '\\', '{', '}'] {
        let name = name.to_string();
        assert!(SubscriberName::parse(name).is_err());
    }
}

#[test]
fn a_valid_name_is_parsed_succesfully() {
    let name = "Ursula Le Guin".to_string();
    assert!(SubscriberName::parse(name).is_ok());
}

#[test]
fn subscriber_name_a_256_grapheme_long_name_is_valid() {
    let name = "ё".repeat(256);
    assert!(SubscriberName::parse(name).is_ok());
}

#[test]
fn subscriber_name_a_name_longer_than_256_graphemes_is_rejected() {
    let name = "ё".repeat(257);
    assert!(SubscriberName::parse(name).is_err());
}

#[test]
fn subscriber_name_whitespace_only_names_are_rejected() {
    let name = " ".to_string();
    assert!(SubscriberName::parse(name).is_err());
}

#[test]
fn subscriber_name_empty_string_is_rejected() {
    let name = "".to_string();
    assert!(SubscriberName::parse(name).is_err());
}

#[test]
fn names_containing_invalid_characters_are_rejected() {
    for name in &['/', '(', ')', '"', '<', '>', '\\', '{', '}'] {
        let name = name.to_string();
        assert!(SubscriberName::parse(name).is_err());
    }
}

#[test]
fn a_valid_name_is_parsed_successfully() {
    let name = "Ursula Le Guin".to_string();
    assert!(SubscriberName::parse(name).is_ok());
}

#[test]
fn a_parsed_name_keeps_its_characters() {
    let name = SubscriberName::parse("Ursula Le Guin".to_string()).unwrap();
    assert_eq!(name.as_ref(), "Ursula Le Guin");
}

#[test]
fn the_error_names_the_rejected_name() {
    let error = SubscriberName::parse("a{b".to_string()).unwrap_err();
    assert_eq!(error, "a{b is not a valid subscriber name");
}

#[test]
fn a_forbidden_character_in_the_middle_is_found() {
    assert!(SubscriberName::parse("Ursula <Le> Guin".to_string()).is_err());
    assert!(SubscriberName::parse("Ursula Le Guin\\".to_string()).is_err());
}

#[test]
fn tabs_and_line_breaks_alone_make_no_name() {
    assert!(SubscriberName::parse("\t \n".to_string()).is_err());
    assert!(SubscriberName::parse("\u{2003}".to_string()).is_err());
}

#[test]
fn a_name_of_clusters_counts_clusters_not_characters() {
    // 200 clusters of two characters each: 400 characters, 200 graphemes.
    let name = "a\u{310}".repeat(200);
    assert_eq!(name.chars().count(), 400);
    assert!(SubscriberName::parse(name).is_ok());
}

#[test]
fn every_kind_of_white_space_alone_makes_no_name() {
    let spaces = [
        '\u{9}', '\u{a}', '\u{b}', '\u{c}', '\u{d}', ' ', '\u{85}', '\u{a0}', '\u{1680}', '\u{2000}',
        '\u{2001}', '\u{2002}', '\u{2003}', '\u{2004}', '\u{2005}', '\u{2006}', '\u{2007}',
        '\u{2008}', '\u{2009}', '\u{200a}', '\u{2028}', '\u{2029}', '\u{202f}', '\u{205f}',
        '\u{3000}',
    ];
    assert_eq!(spaces.len(), 25);
    for space in spaces {
        assert!(SubscriberName::parse(space.to_string()).is_err());
        assert!(SubscriberName::parse(format!("{}{}", space, space)).is_err());
    }
}

#[test]
fn characters_next_to_white_space_are_not_white_space() {
    for c in ['\u{8}', '\u{e}', '\u{1f}', '\u{84}', '\u{86}', '\u{200b}', '\u{2060}', '\u{feff}'] {
        assert!(SubscriberName::parse(c.to_string()).is_ok());
    }
}

#[test]
fn white_space_around_a_name_does_not_hurt() {
    let name = SubscriberName::parse("  Ursula \t".to_string()).unwrap();
    assert_eq!(name.as_ref(), "  Ursula \t");
}
