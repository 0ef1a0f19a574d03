use thunder::{claims_at, current_claims, Claims, ClaimsError};

#[test]
fn claims_fields() {
    let c = Claims::new("appid", "example.com", 1_700_000_000, 86_400);
    assert_eq!(c.aud, "appid");
    assert_eq!(c.iss, "example.com");
    assert_eq!(c.iat, 1_700_000_000);
    assert_eq!(c.exp, 1_700_086_400);
    assert_eq!(c.scopes, "xtask.p2sp, xindex.query");
}

#[test]
fn claims_at_errors() {
    assert_eq!(claims_at("a", "i", None, 1).err(), Some(ClaimsError::ClockBeforeEpoch));
    assert_eq!(claims_at("a", "i", Some(u64::MAX), 1).err(), Some(ClaimsError::ExpiryOverflow));
    let c = claims_at("a", "i", Some(u64::MAX - 1), 1).unwrap();
    assert_eq!(c.exp, u64::MAX);
}

#[test]
fn current_claims_expire_after_issue() {
    let c = current_claims("a", "i", 3600).unwrap();
    assert_eq!(c.exp - c.iat, 3600);
    let now = std::time::SystemTime::now().duration_since(std::time::UNIX_EPOCH).unwrap().as_secs();
    assert!(c.iat <= now && now - c.iat < 60);
}

#[test]
fn claims_do_not_depend_on_anything_but_their_arguments() {
    let a = claims_at("app", "iss", Some(100), 50).unwrap();
    let b = claims_at("app", "iss", Some(100), 50).unwrap();
    assert_eq!((a.iss, a.aud, a.iat, a.exp, a.scopes), (b.iss, b.aud, b.iat, b.exp, b.scopes));
}
