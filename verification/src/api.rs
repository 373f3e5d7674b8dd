use vstd::prelude::*;

use crate::bunch_url::{is_bunch_url, BunchURL};
use crate::clock::{clock_timestamp_limit, is_clock_day, lemma_clock_reading_bounded, utc_now};
use crate::error::{AbunchError, DatabaseErrorKind};
use crate::model::{Date, NewAccount, NewBunch};
use crate::password::{password_accepted, password_matches};
use crate::text::{trim, trim_str};

verus! {

/// Lifetime of a login session, in seconds.
pub const COOKIE_DURATION: i64 = 1200;

/// Largest body, in bytes, accepted for a new bunch unless configured otherwise.
pub const NEW_BUNCH_BODY_LIMIT: u64 = 2048;

/// Largest body, in bytes, accepted for a new account unless configured otherwise.
pub const NEW_ACCOUNT_BODY_LIMIT: u64 = 512;

/// Most characters a bunch or account password may have.
pub const MAX_PASSWORD_CHARS: usize = 20;

/// Most characters a user name may have.
pub const MAX_USERNAME_CHARS: usize = 15;

/// Most links a bunch may hold.
pub const MAX_ENTRIES: usize = 100;

/// The answer to a CORS preflight request, for any path: 200 OK.
pub fn cors_preflight(_path: &str) -> (status: u16)
    ensures
        status == 200,
{
    200
}

/// The `Max-Age` of the session cookies: one second short of the session.
pub fn cookie_max_age() -> (seconds: i64)
    ensures
        seconds == COOKIE_DURATION - 1,
{
    COOKIE_DURATION - 1
}

/// A refusal with status 400 Bad Request.
pub open spec fn is_bad_request(f: (u16, AbunchError)) -> bool {
    f.0 == 400 && f.1 == AbunchError::StatusCode(400)
}

/// A refusal with status 401 Unauthorized and no further detail.
pub open spec fn is_unauthorized(f: (u16, AbunchError)) -> bool {
    f.0 == 401 && f.1 == AbunchError::StatusCode(401)
}

/// User name and password as they are sent to log in.
#[derive(Debug)]
pub struct Credentials {
    pub username: String,
    pub password: String,
}

impl Credentials {
    /// User name and password with surrounding whitespace removed.
    pub fn trimmed(&self) -> (r: (String, String))
        ensures
            r.0@ == trim(self.username@),
            r.1@ == trim(self.password@),
    {
        (trim_str(self.username.as_str()), trim_str(self.password.as_str()))
    }
}

/// The content of the session cookie: expiry and issue time as Unix
/// timestamps, and the id of the logged-in creator.
#[derive(Debug, Clone, Copy, PartialEq, Eq, Structural)]
pub struct JWTClaims {
    pub exp: i64,
    pub iat: i64,
    pub id: i32,
}

/// The claims of a session opened at `now` by creator `id`.
pub open spec fn spec_session_claims(now: i64, id: i32) -> JWTClaims {
    JWTClaims { exp: (now + COOKIE_DURATION) as i64, iat: now, id }
}

/// A session is still valid at `now` while its expiry lies after `now`.
pub open spec fn session_valid_at(claims: JWTClaims, now: i64) -> bool {
    claims.exp > now
}

/// The claims of a session opened at `now` by creator `id`.
pub fn session_claims(now: i64, id: i32) -> (c: JWTClaims)
    requires
        now <= i64::MAX - COOKIE_DURATION,
    ensures
        c == spec_session_claims(now, id),
{
    JWTClaims { exp: now + COOKIE_DURATION, iat: now, id }
}

/// Opens a session for creator `id` now. The clock's reading always leaves
/// room for the expiry: its day is an `i32` Julian day, so the timestamp lies
/// far below `i64::MAX - COOKIE_DURATION`.
pub fn open_session(id: i32) -> (r: Option<JWTClaims>)
    ensures
        r is Some,
        r matches Some(c) ==> c == spec_session_claims(c.iat, id),
        r matches Some(c) ==> (c.iat as int) < clock_timestamp_limit(),
{
    let now = utc_now();
    proof {
        lemma_clock_reading_bounded(now.unix_timestamp, now.today.julian_day);
    }
    if now.unix_timestamp <= i64::MAX - COOKIE_DURATION {
        Some(session_claims(now.unix_timestamp, id))
    } else {
        None
    }
}

/// Access to the creator's own actions, granted by a valid session.
#[derive(Debug)]
pub struct CreatorGuard(pub i32);

impl CreatorGuard {
    /// Grants access when the session cookie held claims (`None` when it was
    /// missing or unreadable) that are still valid at `now`; refuses with
    /// 401 otherwise.
    pub fn from_claims(claims: Option<JWTClaims>, now: i64) -> (r: Result<
        CreatorGuard,
        (u16, AbunchError),
    >)
        ensures
            r is Ok <==> (claims matches Some(c) && session_valid_at(c, now)),
            r matches Ok(g) ==> (claims matches Some(c) && g.0 == c.id),
            r matches Err(f) ==> is_unauthorized(f),
    {
        match claims {
            Some(c) => {
                if c.exp > now {
                    Ok(CreatorGuard(c.id))
                } else {
                    Err((401, AbunchError::StatusCode(401)))
                }
            },
            None => Err((401, AbunchError::StatusCode(401))),
        }
    }

    /// `from_claims` at the current time.
    pub fn from_request(claims: Option<JWTClaims>) -> (r: Result<CreatorGuard, (u16, AbunchError)>)
        ensures
            claims is None ==> r is Err,
            claims matches Some(c) ==> (c.exp >= clock_timestamp_limit() ==> (r matches Ok(g)
                && g.0 == c.id)),
            r matches Ok(g) ==> (claims matches Some(c) && g.0 == c.id),
            r matches Err(f) ==> is_unauthorized(f),
    {
        let now = utc_now();
        proof {
            lemma_clock_reading_bounded(now.unix_timestamp, now.today.julian_day);
        }
        CreatorGuard::from_claims(claims, now.unix_timestamp)
    }
}

/// The text of an optional string.
pub open spec fn opt_string_view(o: Option<String>) -> Option<Seq<char>> {
    match o {
        Some(s) => Some(s@),
        None => None,
    }
}

/// The text of an optional string slice.
pub open spec fn opt_str_view(o: Option<&str>) -> Option<Seq<char>> {
    match o {
        Some(s) => Some(s@),
        None => None,
    }
}

/// Access to a bunch whose stored password hash is `stored` (`None`: no
/// password) is granted to a request with `Authorization` header
/// `authorization` when the bunch has no password, or the header holds a
/// password that the hash accepts.
pub open spec fn bunch_access_granted(
    stored: Option<Seq<char>>,
    authorization: Option<Seq<char>>,
) -> bool {
    match stored {
        None => true,
        Some(h) => authorization matches Some(p) && password_accepted(p, h),
    }
}

/// Access to a bunch, granted when it has no password or the right one was given.
#[derive(Debug)]
pub struct AuthorizationGuard;

impl AuthorizationGuard {
    /// Reads the bunch URL from the first path segment (`None` when there is
    /// none); refuses with 404 when it is missing or not a bunch URL.
    pub fn parse_param(param: Option<&str>) -> (r: Result<BunchURL, (u16, AbunchError)>)
        ensures
            param is None ==> (r matches Err(f) && f.0 == 404 && f.1 == AbunchError::StatusCode(
                404,
            )),
            param matches Some(p) ==> {
                &&& r is Ok <==> is_bunch_url(p@)
                &&& r matches Ok(u) ==> u@ == p@
                &&& r matches Err(f) ==> f.0 == 404 && (f.1 matches AbunchError::BunchURL(t)
                    && t@ == p@)
            },
    {
        match param {
            None => Err((404, AbunchError::StatusCode(404))),
            Some(p) => match BunchURL::from_param(p) {
                Ok(url) => Ok(url),
                Err(e) => Err((404, e)),
            },
        }
    }

    /// Decides on access to the bunch at `url`, given the lookup of its
    /// password hash (`Ok(None)` when it has no password; a failed database
    /// connection is `Err(StatusCode(500))`) and the `Authorization` header.
    pub fn authorize(
        url: &BunchURL,
        lookup: Result<Option<String>, AbunchError>,
        authorization: Option<&str>,
    ) -> (r: Result<AuthorizationGuard, (u16, AbunchError)>)
        ensures
            lookup matches Ok(stored) ==> (r is Ok <==> bunch_access_granted(
                opt_string_view(stored),
                opt_str_view(authorization),
            )),
            lookup matches Ok(None) ==> r is Ok,
            lookup matches Err(e) ==> (r matches Err(f) && f.1 == e && f.0 == (if e
                == AbunchError::DatabaseError(DatabaseErrorKind::RowNotFound) {
                404u16
            } else {
                500u16
            })),
            lookup matches Ok(Some(h)) ==> {
                &&& r is Ok <==> (authorization matches Some(p) && password_accepted(p@, h@))
                &&& r matches Err(f) ==> f.0 == 401 && (f.1 matches AbunchError::WrongPassword(t)
                    && t@ == url@)
            },
    {
        match lookup {
            Ok(None) => Ok(AuthorizationGuard),
            Err(e) => {
                if e.is_row_not_found() {
                    Err((404, e))
                } else {
                    Err((500, e))
                }
            },
            Ok(Some(hash)) => match authorization {
                None => Err((401, AbunchError::WrongPassword(url.to_string()))),
                Some(password) => {
                    if password_matches(password, hash.as_str()) {
                        Ok(AuthorizationGuard)
                    } else {
                        Err((401, AbunchError::WrongPassword(url.to_string())))
                    }
                },
            },
        }
    }
}

/// How reading a request body ended.
#[derive(Debug)]
pub enum BodyRead {
    /// The whole body, within the size limit.
    Complete(String),
    /// The body went past the size limit.
    TooLarge,
    /// The body could not be read.
    Failed,
}

/// The body text, or the refusal: 413 past the limit, 500 when unreadable.
pub fn read_body(read: BodyRead) -> (r: Result<String, (u16, AbunchError)>)
    ensures
        read matches BodyRead::Complete(s) ==> r == Ok::<String, (u16, AbunchError)>(s),
        read is TooLarge ==> r == Err::<String, (u16, AbunchError)>(
            (413u16, AbunchError::StatusCode(413)),
        ),
        read is Failed ==> r == Err::<String, (u16, AbunchError)>(
            (500u16, AbunchError::StatusCode(500)),
        ),
{
    match read {
        BodyRead::Complete(s) => Ok(s),
        BodyRead::TooLarge => Err((413, AbunchError::StatusCode(413))),
        BodyRead::Failed => Err((500, AbunchError::StatusCode(500))),
    }
}

/// The rules a submitted bunch has to meet on day `today`: an expiry, if
/// any, after today; a password, if any, of at most 20 characters; between
/// 1 and 100 links.
pub open spec fn new_bunch_acceptable(b: NewBunch, today: Date) -> bool {
    &&& (b.expiration matches Some(e) ==> today.julian_day < e.julian_day)
    &&& (b.password matches Some(p) ==> p@.len() <= MAX_PASSWORD_CHARS)
    &&& 1 <= b.entries.len() <= MAX_ENTRIES
}

impl NewBunch {
    /// Accepts the bunch unchanged when it meets the rules on `today`;
    /// refuses with 400 otherwise.
    pub fn validate(self, today: Date) -> (r: Result<NewBunch, (u16, AbunchError)>)
        ensures
            r is Ok <==> new_bunch_acceptable(self, today),
            r matches Ok(b) ==> b == self,
            r matches Err(f) ==> is_bad_request(f),
    {
        if let Some(exp) = self.expiration {
            if today.julian_day >= exp.julian_day {
                return Err((400, AbunchError::StatusCode(400)));
            }
        }
        if let Some(password) = &self.password {
            if password.as_str().unicode_len() > MAX_PASSWORD_CHARS {
                return Err((400, AbunchError::StatusCode(400)));
            }
        }
        if self.entries.len() == 0 || self.entries.len() > MAX_ENTRIES {
            return Err((400, AbunchError::StatusCode(400)));
        }
        Ok(self)
    }

    /// `validate` on the current UTC day: it accepts the bunch when every day
    /// the clock can read would, and refuses it when none would.
    pub fn from_data(self) -> (r: Result<NewBunch, (u16, AbunchError)>)
        ensures
            r matches Ok(b) ==> b == self && exists|d: Date|
                is_clock_day(d) && new_bunch_acceptable(self, d),
            (forall|d: Date| new_bunch_acceptable(self, d)) ==> r == Ok::<
                NewBunch,
                (u16, AbunchError),
            >(self),
            (forall|d: Date| is_clock_day(d) ==> new_bunch_acceptable(self, d)) ==> r == Ok::<
                NewBunch,
                (u16, AbunchError),
            >(self),
            (forall|d: Date| !new_bunch_acceptable(self, d)) ==> r is Err,
            (forall|d: Date| is_clock_day(d) ==> !new_bunch_acceptable(self, d)) ==> r is Err,
            r matches Err(f) ==> is_bad_request(f),
    {
        let now = utc_now();
        NewBunch::validate(self, now.today)
    }
}

/// The limits on a new account: a user name of at most 15 characters and a
/// password of at most 20.
pub open spec fn new_account_fields_acceptable(a: NewAccount) -> bool {
    &&& a.username@.len() <= MAX_USERNAME_CHARS
    &&& a.password@.len() <= MAX_PASSWORD_CHARS
}

impl NewAccount {
    /// Accepts the user name and password lengths; refuses with 400 otherwise.
    pub fn check_fields(&self) -> (r: Result<(), (u16, AbunchError)>)
        ensures
            r is Ok <==> new_account_fields_acceptable(*self),
            r matches Err(f) ==> is_bad_request(f),
    {
        if self.username.as_str().unicode_len() > MAX_USERNAME_CHARS {
            return Err((400, AbunchError::StatusCode(400)));
        }
        if self.password.as_str().unicode_len() > MAX_PASSWORD_CHARS {
            return Err((400, AbunchError::StatusCode(400)));
        }
        Ok(())
    }

    /// Applies the looked-up validity of the invitation token (`(valid,
    /// admin)`): a valid token grants the account, with the token's admin
    /// right; an invalid one is refused with 401, a failed lookup with 500.
    pub fn apply_token(self, validity: Result<(bool, bool), AbunchError>) -> (r: Result<
        NewAccount,
        (u16, AbunchError),
    >)
        ensures
            validity matches Ok((true, admin)) ==> r == Ok::<NewAccount, (u16, AbunchError)>(
                NewAccount { admin: Some(admin), ..self },
            ),
            validity matches Ok((false, _)) ==> (r matches Err(f) && f.0 == 401 && f.1
                == AbunchError::InvalidToken(self.token)),
            validity matches Err(e) ==> r == Err::<NewAccount, (u16, AbunchError)>((500u16, e)),
    {
        match validity {
            Ok((true, admin)) => {
                let mut account = self;
                account.admin = Some(admin);
                Ok(account)
            },
            Ok((false, _)) => Err((401, AbunchError::InvalidToken(self.token))),
            Err(e) => Err((500, e)),
        }
    }
}

} // verus!
