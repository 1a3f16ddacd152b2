use backend::domain::category::CategoryName;
use backend::domain::user_email::UserEmail;
use backend::domain::username::Username;

#[test]
fn a_100_grapheme_long_name_is_valid() {
    let name = "a".repeat(100);
    assert!(CategoryName::parse(name).is_ok());
}

#[test]
fn a_name_longer_than_100_graphemes_is_rejected() {
    let name = "a".repeat(101);
    assert!(CategoryName::parse(name).is_err());
}

#[test]
fn category_whitespace_only_names_are_rejected() {
    let name = " ".to_string();
    assert!(CategoryName::parse(name).is_err());
}

#[test]
fn category_empty_string_is_rejected() {
    let name = "".to_string();
    assert!(CategoryName::parse(name).is_err());
}

#[test]
fn category_valid_name_parsed_successfully() {
    let name = "Electronics".to_string();
    assert!(CategoryName::parse(name).is_ok());
}

#[test]
fn user_email_empty_string_is_rejected() {
    let email = "".to_string();
    assert!(UserEmail::parse(email).is_err());
}

#[test]
fn email_missing_at_symbol_is_rejected() {
    let email = "deathwish.com".to_string();
    assert!(UserEmail::parse(email).is_err());
}

#[test]
fn email_missing_subject_is_rejected() {
    let email = "@deathwish.com".to_string();
    assert!(UserEmail::parse(email).is_err());
}

#[test]
fn a_256_grapheme_lons_name_is_valid() {
    let name = "a".repeat(256);
    assert!(Username::parse(name).is_ok());
}

#[test]
fn a_name_longer_than_256_graphemes_is_rejected() {
    let name = "a".repeat(257);
    assert!(Username::parse(name).is_err());
}

#[test]
fn username_whitespace_only_names_are_rejected() {
    let name = " ".to_string();
    assert!(Username::parse(name).is_err());
}

#[test]
fn username_empty_string_is_rejected() {
    let name = "".to_string();
    assert!(Username::parse(name).is_err());
}

#[test]
fn username_containing_an_invalid_character_are_rejected() {
    for name in &['/', '(', ')', '"', '<', '>', '\\', '{', '}'] {
        let name = name.to_string();
        assert!(Username::parse(name).is_err());
    }
}

#[test]
fn username_valid_name_parsed_successfully() {
    let name = "Go back markel".to_string();
    assert!(Username::parse(name).is_ok());
}

#[test]
fn category_error_message_quotes_the_name() {
    let err = CategoryName::parse("   ".to_string()).unwrap_err();
    assert_eq!(err, "    is not a valid category name.");
}

#[test]
fn username_error_message_quotes_the_name() {
    let err = Username::parse("a/b".to_string()).unwrap_err();
    assert_eq!(err, "a/b is not a valid username.");
}

#[test]
fn valid_email_is_accepted() {
    let email = UserEmail::parse("someone@example.com".to_string()).unwrap();
    assert_eq!(email.as_ref(), "someone@example.com");
}

#[test]
fn blank_text_is_what_std_trims_away() {
    for u in 0u32..0x3100 {
        if let Some(c) = char::from_u32(u) {
            let s = c.to_string();
            assert_eq!(backend::text::is_blank(&s), s.trim().is_empty(), "code point {:x}", u);
        }
    }
}
