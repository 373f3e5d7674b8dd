use abunch::api::{
    cookie_max_age, cors_preflight, open_session, read_body, session_claims, AuthorizationGuard,
    BodyRead, CreatorGuard, Credentials, JWTClaims, COOKIE_DURATION,
};
use abunch::bunch_url::BunchURL;
use abunch::error::{AbunchError, DatabaseErrorKind};
use abunch::model::{Date, NewAccount, NewBunch, NewEntry};
use abunch::password::hash_password;

fn entry(url: &str) -> NewEntry {
    NewEntry { url: url.to_string(), title: None, description: None }
}

fn bunch(expiration: Option<i32>, password: Option<&str>, entries: usize) -> NewBunch {
    NewBunch {
        title: "t".to_string(),
        description: None,
        expiration: expiration.map(|d| Date { julian_day: d }),
        password: password.map(|p| p.to_string()),
        open_graph: false,
        incognito: false,
        entries: (0..entries).map(|i| entry(&format!("https://e{}.org", i))).collect(),
    }
}

#[test]
fn preflight_is_ok() {
    assert_eq!(cors_preflight("anything/at/all"), 200);
}

#[test]
fn session_lasts_twenty_minutes() {
    let c = session_claims(1_700_000_000, 7);
    assert_eq!(c, JWTClaims { exp: 1_700_001_200, iat: 1_700_000_000, id: 7 });
    assert_eq!(COOKIE_DURATION, 1200);
    assert_eq!(cookie_max_age(), 1199);
}

#[test]
fn open_session_now() {
    let c = open_session(3).unwrap();
    assert_eq!(c.id, 3);
    assert_eq!(c.exp - c.iat, 1200);
    assert!(c.iat > 1_600_000_000);
}

#[test]
fn creator_guard_accepts_unexpired_session() {
    let c = session_claims(1000, 42);
    assert_eq!(CreatorGuard::from_claims(Some(c), 1000).unwrap().0, 42);
    assert_eq!(CreatorGuard::from_claims(Some(c), 2199).unwrap().0, 42);
}

#[test]
fn creator_guard_refuses_expired_or_missing_session() {
    let c = session_claims(1000, 42);
    for r in [
        CreatorGuard::from_claims(Some(c), 2200),
        CreatorGuard::from_claims(Some(c), 5000),
        CreatorGuard::from_claims(None, 0),
    ] {
        match r {
            Err((401, AbunchError::StatusCode(401))) => {}
            other => panic!("unexpected {:?}", other),
        }
    }
}

#[test]
fn creator_guard_uses_current_time() {
    let fresh = open_session(9).unwrap();
    assert_eq!(CreatorGuard::from_request(Some(fresh)).unwrap().0, 9);
    let stale = session_claims(1000, 9);
    assert!(CreatorGuard::from_request(Some(stale)).is_err());
    assert!(CreatorGuard::from_request(None).is_err());
}

#[test]
fn credentials_are_trimmed() {
    let c = Credentials { username: "  alice\n".to_string(), password: "\tpw x ".to_string() };
    assert_eq!(c.trimmed(), ("alice".to_string(), "pw x".to_string()));
}

#[test]
fn parse_param_cases() {
    match AuthorizationGuard::parse_param(None) {
        Err((404, AbunchError::StatusCode(404))) => {}
        other => panic!("unexpected {:?}", other),
    }
    match AuthorizationGuard::parse_param(Some("toolong")) {
        Err((404, AbunchError::BunchURL(t))) => assert_eq!(t, "toolong"),
        other => panic!("unexpected {:?}", other),
    }
    assert_eq!(AuthorizationGuard::parse_param(Some("abcdef")).unwrap().to_string(), "abcdef");
}

#[test]
fn authorize_open_bunch() {
    let url = BunchURL::try_from("abcdef".to_string()).unwrap();
    assert!(AuthorizationGuard::authorize(&url, Ok(None), None).is_ok());
    assert!(AuthorizationGuard::authorize(&url, Ok(None), Some("whatever")).is_ok());
}

#[test]
fn authorize_lookup_failures() {
    let url = BunchURL::try_from("abcdef".to_string()).unwrap();
    match AuthorizationGuard::authorize(
        &url,
        Err(AbunchError::DatabaseError(DatabaseErrorKind::RowNotFound)),
        None,
    ) {
        Err((404, AbunchError::DatabaseError(DatabaseErrorKind::RowNotFound))) => {}
        other => panic!("unexpected {:?}", other),
    }
    match AuthorizationGuard::authorize(&url, Err(AbunchError::StatusCode(500)), None) {
        Err((500, AbunchError::StatusCode(500))) => {}
        other => panic!("unexpected {:?}", other),
    }
}

#[test]
fn authorize_password_bunch() {
    let url = BunchURL::try_from("abcdef".to_string()).unwrap();
    let h = hash_password("pw").unwrap();
    assert!(AuthorizationGuard::authorize(&url, Ok(Some(h.clone())), Some("pw")).is_ok());
    for header in [None, Some("wrong")] {
        match AuthorizationGuard::authorize(&url, Ok(Some(h.clone())), header) {
            Err((401, AbunchError::WrongPassword(t))) => assert_eq!(t, "abcdef"),
            other => panic!("unexpected {:?}", other),
        }
    }
}

#[test]
fn read_body_outcomes() {
    assert_eq!(read_body(BodyRead::Complete("{}".to_string())).unwrap(), "{}");
    assert!(matches!(read_body(BodyRead::TooLarge), Err((413, AbunchError::StatusCode(413)))));
    assert!(matches!(read_body(BodyRead::Failed), Err((500, AbunchError::StatusCode(500)))));
}

#[test]
fn new_bunch_rules() {
    let today = Date { julian_day: 2_460_000 };
    assert!(bunch(None, None, 1).validate(today).is_ok());
    assert!(bunch(Some(2_460_001), Some("12345678901234567890"), 100).validate(today).is_ok());
    let refused = [
        bunch(Some(2_460_000), None, 1),
        bunch(Some(2_459_000), None, 1),
        bunch(None, Some("123456789012345678901"), 1),
        bunch(None, None, 0),
        bunch(None, None, 101),
    ];
    for b in refused {
        assert!(matches!(b.validate(today), Err((400, AbunchError::StatusCode(400)))));
    }
}

#[test]
fn new_bunch_password_counts_characters() {
    let today = Date { julian_day: 0 };
    // 20 characters, 40 bytes
    assert!(bunch(None, Some("éééééééééééééééééééé"), 3).validate(today).is_ok());
}

#[test]
fn new_bunch_from_data_uses_today() {
    assert!(bunch(None, None, 2).from_data().is_ok());
    assert!(bunch(Some(2_440_588), None, 2).from_data().is_err());
    assert!(bunch(Some(i32::MAX), None, 2).from_data().is_ok());
}

fn account(username: &str, password: &str) -> NewAccount {
    NewAccount {
        username: username.to_string(),
        password: password.to_string(),
        token: "tok".to_string(),
        admin: None,
    }
}

#[test]
fn new_account_field_limits() {
    assert!(account("fifteen_chars__", "12345678901234567890").check_fields().is_ok());
    assert!(matches!(
        account("sixteen_chars___", "x").check_fields(),
        Err((400, AbunchError::StatusCode(400)))
    ));
    assert!(matches!(
        account("bob", "123456789012345678901").check_fields(),
        Err((400, AbunchError::StatusCode(400)))
    ));
}

#[test]
fn new_account_token_validity() {
    let a = account("bob", "pw").apply_token(Ok((true, true))).unwrap();
    assert_eq!(a.admin, Some(true));
    assert_eq!(a.username, "bob");
    let b = account("bob", "pw").apply_token(Ok((true, false))).unwrap();
    assert_eq!(b.admin, Some(false));
    match account("bob", "pw").apply_token(Ok((false, true))) {
        Err((401, AbunchError::InvalidToken(t))) => assert_eq!(t, "tok"),
        other => panic!("unexpected {:?}", other),
    }
    match account("bob", "pw").apply_token(Err(AbunchError::StatusCode(500))) {
        Err((500, AbunchError::StatusCode(500))) => {}
        other => panic!("unexpected {:?}", other),
    }
}

#[test]
fn creator_guard_accepts_far_future_expiry() {
    let c = JWTClaims { exp: i64::MAX, iat: 0, id: 5 };
    assert_eq!(CreatorGuard::from_request(Some(c)).unwrap().0, 5);
}

#[test]
fn new_bunch_without_expiry_is_accepted_today() {
    let b = bunch(None, Some("éééééééééééééééééééé"), 100).from_data().unwrap();
    assert_eq!(b.entries.len(), 100);
    assert_eq!(b.password.as_deref(), Some("éééééééééééééééééééé"));
}
