use zero2prod::domain::{ParseError, SubscriptionToken};

fn outcome(raw: &str) -> Result<String, ParseError> {
    SubscriptionToken::parse(raw).map(|token| token.as_ref().to_string())
}

#[test]
fn a_token_of_25_alphanumerics_is_accepted_unchanged() {
    let raw = "ySGXNWj24BXAj15ybqmzn3n4h";
    assert_eq!(raw.len(), 25);
    assert_eq!(outcome(raw), Ok(raw.to_string()));
}

#[test]
fn all_digits_and_all_letters_are_accepted() {
    assert_eq!(outcome("0123456789012345678901234"), Ok("0123456789012345678901234".to_string()));
    assert_eq!(outcome("abcdefghijklmnopqrstuvwxy"), Ok("abcdefghijklmnopqrstuvwxy".to_string()));
    assert_eq!(outcome("ABCDEFGHIJKLMNOPQRSTUVWXZ"), Ok("ABCDEFGHIJKLMNOPQRSTUVWXZ".to_string()));
    assert_eq!(outcome("azAZ09azAZ09azAZ09azAZ09a"), Ok("azAZ09azAZ09azAZ09azAZ09a".to_string()));
}

#[test]
fn a_token_of_24_characters_has_an_incorrect_length() {
    assert_eq!(outcome("ySGXNWj24BXAj15ybqmzn3n4"), Err(ParseError::IncorrectLength));
}

#[test]
fn a_token_of_26_characters_has_an_incorrect_length() {
    assert_eq!(outcome("ySGXNWj24BXAj15ybqmzn3n4hh"), Err(ParseError::IncorrectLength));
}

#[test]
fn the_empty_string_has_an_incorrect_length() {
    assert_eq!(outcome(""), Err(ParseError::IncorrectLength));
}

#[test]
fn a_token_with_a_hyphen_is_not_alphanumeric() {
    assert_eq!(outcome("ySGXNWj24BXA-j15ybqmzn3n4h"), Err(ParseError::NotAlphanumeric));
    assert_eq!(outcome("ySGXNWj24BXA-15ybqmzn3n4h"), Err(ParseError::NotAlphanumeric));
}

#[test]
fn characters_next_to_the_alphanumeric_ranges_are_refused() {
    for c in ['/', ':', '@', '[', '`', '{', ' ', '\n', '_'] {
        let mut raw = String::from("ySGXNWj24BXAj15ybqmzn3n4");
        raw.push(c);
        assert_eq!(outcome(&raw), Err(ParseError::NotAlphanumeric));
    }
}

#[test]
fn a_letter_outside_ascii_is_not_alphanumeric() {
    let raw = "ySGXNWj24BXAj15ybqmzn3n4é";
    assert_eq!(raw.chars().count(), 25);
    assert_eq!(outcome(raw), Err(ParseError::NotAlphanumeric));
    let raw = "ySGXNWj24BXAj15ybqmzn3né";
    assert_eq!(raw.len(), 25);
    assert_eq!(outcome(raw), Err(ParseError::NotAlphanumeric));
}

#[test]
fn a_bad_character_is_reported_before_a_bad_length() {
    assert_eq!(outcome("abc-def"), Err(ParseError::NotAlphanumeric));
    assert_eq!(outcome("-"), Err(ParseError::NotAlphanumeric));
}
