use vstd::prelude::*;

use crate::api::{bunch_access_granted, JWTClaims, session_valid_at, spec_session_claims, COOKIE_DURATION};
use crate::clock::clock_timestamp_limit;
use crate::api::new_bunch_acceptable;
use crate::cors::response_headers;
use crate::db::{bunch_expired, stored_password_for};
use crate::model::{Date, NewBunch};
use crate::password::password_accepted;
use crate::text::{all_white_space, lemma_trim_padded, no_surrounding_white_space, trim};

verus! {

/// A session opened at `now` grants access at time `t` exactly while `t`
/// lies before `now + COOKIE_DURATION`: from the moment of login on, for
/// twenty minutes.
pub proof fn lemma_session_lifetime(now: i64, id: i32, t: i64)
    requires
        now <= i64::MAX - COOKIE_DURATION,
    ensures
        session_valid_at(spec_session_claims(now, id), t) <==> t < now + COOKIE_DURATION,
        spec_session_claims(now, id).id == id,
        spec_session_claims(now, id).exp - spec_session_claims(now, id).iat == COOKIE_DURATION,
{
}

/// Every session that `open_session` opens lasts twenty minutes: its claims
/// grant access at time `t` exactly while `t` lies before the login time
/// plus `COOKIE_DURATION`, for the creator that logged in.
pub proof fn lemma_opened_session_lifetime(c: JWTClaims, id: i32, t: i64)
    requires
        c == spec_session_claims(c.iat, id),
        (c.iat as int) < clock_timestamp_limit(),
    ensures
        session_valid_at(c, t) <==> t < c.iat + COOKIE_DURATION,
        c.id == id,
{
    lemma_session_lifetime(c.iat, id, t);
}

/// A bunch opens with the password it was created with: whatever
/// `stored_bunch_password` stored for it, `authorize` grants a request that
/// carries that password. A bunch created without a password opens for any
/// request, and one created with a password stays closed to a request
/// without one.
pub proof fn lemma_bunch_password_opens_bunch(password: Option<Seq<char>>, stored: Option<Seq<char>>)
    requires
        stored_password_for(password, stored),
    ensures
        bunch_access_granted(stored, password),
        password is None ==> forall|a: Option<Seq<char>>| bunch_access_granted(stored, a),
        password is Some ==> !bunch_access_granted(stored, None),
{
}

/// Whitespace typed around a password at login does not matter: login
/// trims what it is given, so a password that neither starts nor ends with
/// whitespace, once hashed at registration, also logs in when padded with
/// whitespace on either side.
pub proof fn lemma_padded_password_logs_in(
    pre: Seq<char>,
    password: Seq<char>,
    post: Seq<char>,
    hash: Seq<char>,
)
    requires
        all_white_space(pre),
        all_white_space(post),
        no_surrounding_white_space(password),
        password_accepted(password, hash),
    ensures
        password_accepted(trim(pre + password + post), hash),
{
    lemma_trim_padded(pre, password, post);
}


/// Every configured origin is echoed back, wherever it stands in the list:
/// the response carries the three fixed headers and then
/// `Access-Control-Allow-Origin` with that origin.
pub proof fn lemma_cors_echoes_every_configured_origin(allowed: Seq<String>, origin: Seq<char>, i: int)
    requires
        0 <= i < allowed.len(),
        allowed[i]@ == origin,
    ensures
        response_headers(allowed, Some(origin)).len() == 4,
        response_headers(allowed, Some(origin))[3] == ("Access-Control-Allow-Origin"@, origin),
        response_headers(allowed, Some(origin)).subrange(0, 3) == response_headers(allowed, None),
{
    assert(response_headers(allowed, Some(origin)).subrange(0, 3) =~= response_headers(allowed, None));
}

/// An origin that is not configured is never echoed: the response carries
/// the same headers as a request without an `Origin` header.
pub proof fn lemma_cors_ignores_other_origins(allowed: Seq<String>, origin: Seq<char>)
    requires
        forall|i: int| 0 <= i < allowed.len() ==> (#[trigger] allowed[i])@ != origin,
    ensures
        response_headers(allowed, Some(origin)) == response_headers(allowed, None),
        response_headers(allowed, None).len() == 3,
{
}

/// Configuring more origins never takes an echo away: what a list echoes,
/// the list with one more origin appended echoes too.
pub proof fn lemma_cors_more_origins_keep_echoes(allowed: Seq<String>, extra: String, origin: Seq<char>)
    ensures
        response_headers(allowed, Some(origin)).len() == 4 ==> response_headers(
            allowed.push(extra),
            Some(origin),
        ) == response_headers(allowed, Some(origin)),
{
    if response_headers(allowed, Some(origin)).len() == 4 {
        let i = choose|i: int| 0 <= i < allowed.len() && (#[trigger] allowed[i])@ == origin;
        assert(allowed.push(extra)[i] == allowed[i]);
    }
}

/// Whether a submitted bunch is accepted depends on the day only through its
/// expiry: a bunch accepted on some day is accepted on every earlier day, and
/// on no day from its expiry day on.
pub proof fn lemma_new_bunch_acceptance_by_day(b: NewBunch, earlier: Date, later: Date)
    ensures
        new_bunch_acceptable(b, later) && earlier.julian_day <= later.julian_day
            ==> new_bunch_acceptable(b, earlier),
        b.expiration matches Some(e) ==> (e.julian_day <= later.julian_day ==> !new_bunch_acceptable(
            b,
            later,
        )),
        b.expiration is None ==> (new_bunch_acceptable(b, earlier) <==> new_bunch_acceptable(
            b,
            later,
        )),
{
}

/// A bunch is served up to the day before its expiry day and never from
/// that day on; a bunch without expiry is always served. Once expired, it
/// stays expired.
pub proof fn lemma_expiry_is_final(expiration: Option<Date>, day: Date, later: Date)
    ensures
        expiration is None ==> !bunch_expired(expiration, day),
        expiration matches Some(e) ==> (bunch_expired(expiration, day) <==> e.julian_day
            <= day.julian_day),
        bunch_expired(expiration, day) && day.julian_day <= later.julian_day ==> bunch_expired(
            expiration,
            later,
        ),
{
}

/// A bunch accepted on the day it is submitted is served on that day and
/// on every later day before its expiry.
pub proof fn lemma_accepted_bunch_is_served(b: NewBunch, submitted: Date, day: Date)
    requires
        new_bunch_acceptable(b, submitted),
        submitted.julian_day <= day.julian_day,
        b.expiration matches Some(e) ==> day.julian_day < e.julian_day,
    ensures
        !bunch_expired(b.expiration, submitted),
        !bunch_expired(b.expiration, day),
{
}

} // verus!
