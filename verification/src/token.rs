//! The claims of the login token: who issues it, for which application,
//! when it is issued and when it expires, and what it grants.
use vstd::prelude::*;

verus! {

/// The claims signed into a login token.
#[derive(Debug)]
pub struct Claims {
    /// Issuer: the partner's own identifier, such as its domain.
    pub iss: String,
    /// Audience: the application id.
    pub aud: String,
    /// Issued at, in seconds since the Unix epoch.
    pub iat: u64,
    /// Expiry, in seconds since the Unix epoch.
    pub exp: u64,
    /// The scopes the token grants.
    pub scopes: String,
}

/// The scopes every login token grants.
pub open spec fn token_scopes() -> Seq<char> {
    "xtask.p2sp, xindex.query"@
}

/// Why no claims could be made.
#[derive(Debug, PartialEq, Eq, Structural)]
pub enum ClaimsError {
    /// The clock reads a time before the Unix epoch.
    ClockBeforeEpoch,
    /// The expiry does not fit in 64 bits.
    ExpiryOverflow,
}

impl Claims {
    /// The claims for application `app_id`, issued by `issuer` at
    /// `issued_at` and valid for `expire_seconds`.
    pub fn new(app_id: &str, issuer: &str, issued_at: u64, expire_seconds: u64) -> (c: Claims)
        requires
            issued_at + expire_seconds <= u64::MAX,
        ensures
            c.iss@ == issuer@,
            c.aud@ == app_id@,
            c.iat == issued_at,
            c.exp == issued_at + expire_seconds,
            c.scopes@ == token_scopes(),
    {
        Claims {
            iss: issuer.to_owned(),
            aud: app_id.to_owned(),
            iat: issued_at,
            exp: issued_at + expire_seconds,
            scopes: String::from_str("xtask.p2sp, xindex.query"),
        }
    }
}

/// What making the claims for a clock reading `now` gives: no reading
/// fails with `ClockBeforeEpoch`; a reading whose expiry would not fit in 64
/// bits fails with `ExpiryOverflow`; any other reading gives the claims
/// issued at it.
pub open spec fn claims_outcome(
    app_id: Seq<char>,
    issuer: Seq<char>,
    now: Option<u64>,
    expire_seconds: u64,
    r: Result<Claims, ClaimsError>,
) -> bool {
    match now {
        None => r == Err::<Claims, ClaimsError>(ClaimsError::ClockBeforeEpoch),
        Some(t) => if t + expire_seconds > u64::MAX {
            r == Err::<Claims, ClaimsError>(ClaimsError::ExpiryOverflow)
        } else {
            r matches Ok(c) && c.iss@ == issuer && c.aud@ == app_id && c.iat == t && c.exp == t
                + expire_seconds && c.scopes@ == token_scopes()
        },
    }
}

/// Claims are made for every clock reading whose expiry fits in 64 bits,
/// issued at that reading and expiring `expire_seconds` later; a reading
/// whose expiry does not fit fails with `ExpiryOverflow`, and only such a
/// reading does; no reading fails with `ClockBeforeEpoch`.
pub proof fn lemma_claims_outcome_split(
    app_id: Seq<char>,
    issuer: Seq<char>,
    now: Option<u64>,
    expire_seconds: u64,
    r: Result<Claims, ClaimsError>,
)
    requires
        claims_outcome(app_id, issuer, now, expire_seconds, r),
    ensures
        now is None <==> r == Err::<Claims, ClaimsError>(ClaimsError::ClockBeforeEpoch),
        now matches Some(t) ==> (r is Ok <==> t + expire_seconds <= u64::MAX),
        r == Err::<Claims, ClaimsError>(ClaimsError::ExpiryOverflow) <==> (now matches Some(t)
            && t + expire_seconds > u64::MAX),
        r matches Ok(c) ==> now == Some(c.iat) && c.exp == c.iat + expire_seconds && c.iss@
            == issuer && c.aud@ == app_id && c.scopes@ == token_scopes(),
{
}

/// The claims are fixed by the application, the issuer, the clock reading
/// and the lifetime alone: two outcomes for the same arguments agree on
/// success and, when they succeed, on every claim. Nothing else, such as
/// the secret the token is later signed with, enters them.
pub proof fn lemma_claims_determined(
    app_id: Seq<char>,
    issuer: Seq<char>,
    now: Option<u64>,
    expire_seconds: u64,
    r1: Result<Claims, ClaimsError>,
    r2: Result<Claims, ClaimsError>,
)
    requires
        claims_outcome(app_id, issuer, now, expire_seconds, r1),
        claims_outcome(app_id, issuer, now, expire_seconds, r2),
    ensures
        r1 is Ok <==> r2 is Ok,
        r1 is Err ==> r1 == r2,
        r1 matches Ok(c1) ==> r2 matches Ok(c2) && c1.iss@ == c2.iss@ && c1.aud@ == c2.aud@
            && c1.iat == c2.iat && c1.exp == c2.exp && c1.scopes@ == c2.scopes@,
{
}

/// Makes the claims for a clock reading `now` (`None` when the clock reads
/// before the Unix epoch): fails when there is no reading or when the
/// expiry would not fit in 64 bits.
pub fn claims_at(app_id: &str, issuer: &str, now: Option<u64>, expire_seconds: u64) -> (r: Result<
    Claims,
    ClaimsError,
>)
    ensures
        claims_outcome(app_id@, issuer@, now, expire_seconds, r),
        now is None ==> r == Err::<Claims, ClaimsError>(ClaimsError::ClockBeforeEpoch),
        now matches Some(t) ==> (r == Err::<Claims, ClaimsError>(ClaimsError::ExpiryOverflow)
            <==> t + expire_seconds > u64::MAX),
        now matches Some(t) ==> (r is Ok <==> t + expire_seconds <= u64::MAX),
        r matches Ok(c) ==> now == Some(c.iat) && c.exp == c.iat + expire_seconds && c.iss@
            == issuer@ && c.aud@ == app_id@ && c.scopes@ == token_scopes(),
{
    match now {
        None => Err(ClaimsError::ClockBeforeEpoch),
        Some(t) => {
            if t > u64::MAX - expire_seconds {
                Err(ClaimsError::ExpiryOverflow)
            } else {
                Ok(Claims::new(app_id, issuer, t, expire_seconds))
            }
        },
    }
}

/// Reads std's `SystemTime::now` as whole seconds since the Unix epoch, or
/// `None` when the clock reads before the epoch.
///
/// The reading depends on the clock, so nothing is claimed of it.
#[verifier::external_body]
fn seconds_since_epoch() -> (secs: Option<u64>) {
    match std::time::SystemTime::now().duration_since(std::time::UNIX_EPOCH) {
        Ok(d) => Some(d.as_secs()),
        Err(_) => None,
    }
}

/// Makes the claims of a token issued now: the outcome is that of
/// `claims_at` for the clock's reading, whatever it is. So the claims name
/// the issuer and the application, grant the fixed scopes, and expire
/// `expire_seconds` after they are issued; the only failures are a clock
/// before the Unix epoch and an expiry past 64 bits, the latter only when
/// `expire_seconds` is not zero.
pub fn current_claims(app_id: &str, issuer: &str, expire_seconds: u64) -> (r: Result<
    Claims,
    ClaimsError,
>)
    ensures
        exists|now: Option<u64>| #[trigger] claims_outcome(app_id@, issuer@, now, expire_seconds, r),
        r matches Ok(c) ==> c.iss@ == issuer@ && c.aud@ == app_id@ && c.exp == c.iat
            + expire_seconds && c.scopes@ == token_scopes(),
        r == Err::<Claims, ClaimsError>(ClaimsError::ExpiryOverflow) ==> expire_seconds > 0,
{
    let now = seconds_since_epoch();
    let r = claims_at(app_id, issuer, now, expire_seconds);
    assert(claims_outcome(app_id@, issuer@, now, expire_seconds, r));
    r
}

} // verus!
