use zero2prod::domain::{Email, Phone};

#[test]
fn empty_string_is_rejected() {
    let email = "".to_string();
    assert!(Email::parse(email).is_err());
}

#[test]
fn email_missin_at_symbol_is_rejected() {
    let email = "ursuladomain.com".to_string();
    assert!(Email::parse(email).is_err());
}

#[test]
fn email_missing_subject_is_rejected() {
    let email = "@domain.com".to_string();
    assert!(Email::parse(email).is_err());
}

#[test]
fn valid_emails_are_parsed_successfully() {
    for text in ["ursula@domain.com", "a.b-c@example.org", "email@[127.0.0.1]"] {
        let email = Email::parse(text.to_string()).expect("a valid address");
        assert_eq!(email.as_ref(), text);
        assert_eq!(email.to_string(), text);
        assert_eq!(email.clone().as_ref(), text);
    }
}

#[test]
fn a_refused_email_is_named_in_the_message() {
    let refused = Email::parse("ursuladomain.com".to_string()).unwrap_err();
    assert_eq!(refused.to_string(), "ursuladomain.com is not a valid subscriber email");
}

#[test]
fn valid_phone_numbers_are_parsed() {
    for text in ["+1 (415) 237-0800", "+14152370800", "+33642926829"] {
        let phone = Phone::parse(text.to_string()).expect("a valid number");
        assert_eq!(phone.as_ref(), text);
        assert_eq!(phone.to_string(), text);
    }
}

#[test]
fn invalid_phone_numbers_are_refused() {
    for text in ["14152370800", "0642926829", "A012", "TEXT", ""] {
        let refused = Phone::parse(text.to_string()).unwrap_err();
        assert_eq!(refused.to_string(), format!("{} is not a valid subscriber email", text));
    }
}
