use abunch::bunch_url::BunchURL;
use abunch::error::AbunchError;

fn is_safe(c: char) -> bool {
    c == '_' || c == '-' || c.is_ascii_digit() || c.is_ascii_lowercase() || c.is_ascii_uppercase()
}

#[test]
fn try_from_accepts_six_safe_symbols() {
    let url = BunchURL::try_from("aB3_-z".to_string()).unwrap();
    assert_eq!(url.to_string(), "aB3_-z");
}

#[test]
fn try_from_rejects_wrong_length() {
    for text in ["", "abcde", "abcdefg", "aaaaaaaaaaaa"] {
        match BunchURL::try_from(text.to_string()) {
            Err(AbunchError::BunchURL(t)) => assert_eq!(t, text),
            other => panic!("unexpected {:?}", other),
        }
    }
}

#[test]
fn try_from_rejects_unsafe_symbols() {
    for text in ["abc de", "abc/de", "abc.de", "abc+de", "abcdé", "ab%20c"] {
        assert!(matches!(BunchURL::try_from(text.to_string()), Err(AbunchError::BunchURL(_))));
    }
}

#[test]
fn try_from_rejects_six_non_ascii_chars() {
    // six characters but more than six bytes
    assert!(matches!(BunchURL::try_from("ééééé1".to_string()), Err(AbunchError::BunchURL(_))));
}

#[test]
fn new_urls_are_well_formed_and_read_back() {
    for _ in 0..50 {
        let url = BunchURL::new();
        let text = url.to_string();
        assert_eq!(text.len(), 6);
        assert!(text.chars().all(is_safe));
        let again = BunchURL::try_from(text.clone()).unwrap();
        assert_eq!(again.to_string(), text);
    }
}

#[test]
fn new_urls_differ() {
    let a = BunchURL::new().to_string();
    let b = BunchURL::new().to_string();
    let c = BunchURL::new().to_string();
    assert!(a != b || b != c);
}

#[test]
fn from_param_matches_try_from() {
    assert_eq!(BunchURL::from_param("Zz09_-").unwrap().to_string(), "Zz09_-");
    match BunchURL::from_param("new") {
        Err(AbunchError::BunchURL(t)) => assert_eq!(t, "new"),
        other => panic!("unexpected {:?}", other),
    }
}
