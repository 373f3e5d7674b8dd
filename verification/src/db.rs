use vstd::prelude::*;

use crate::bunch_url::{is_bunch_url, BunchURL};
use crate::error::AbunchError;
use crate::api::opt_string_view;
use crate::clock::{is_clock_day, utc_now};
use crate::model::{Bunch, Date, Entry, NewAccount};
use crate::password::{hash_password, is_bcrypt_2b_10, password_accepted, BCRYPT_HASH_LEN};

verus! {

/// What a login query returns: the creator row (id and stored password
/// hash) found for the user name, or the database error.
pub type CreatorRecord = Result<(i32, String), AbunchError>;

/// Checks a login against the creator row found for the user name.
pub fn verify_user(username: &str, password: &str, record: CreatorRecord) -> (r: Result<
    i32,
    AbunchError,
>)
    ensures
        record matches Ok((id, hash)) ==> {
            &&& r is Ok <==> password_accepted(password@, hash@)
            &&& r matches Ok(i) ==> i == id
            &&& r matches Err(e) ==> (e matches AbunchError::WrongPassword(u) && u@ == username@)
        },
        record matches Err(e) ==> r == Err::<i32, AbunchError>(e),
{
    match record {
        Ok((id, hash)) => {
            if crate::password::password_matches(password, hash.as_str()) {
                Ok(id)
            } else {
                Err(AbunchError::WrongPassword(username.to_owned()))
            }
        },
        Err(e) => Err(e),
    }
}

/// A click on a link counts only for a link of that bunch: when the update
/// touched no row, the click is refused with 403.
pub fn clicked_url(rows_affected: u64) -> (r: Result<(), AbunchError>)
    ensures
        rows_affected == 0 ==> r == Err::<(), AbunchError>(AbunchError::StatusCode(403)),
        rows_affected != 0 ==> r is Ok,
{
    if rows_affected == 0 {
        Err(AbunchError::StatusCode(403))
    } else {
        Ok(())
    }
}

/// The stored fields of a bunch row that are shown.
#[derive(Debug)]
pub struct BunchRecord {
    pub title: String,
    pub description: Option<String>,
    pub date: Date,
    pub open_graph: bool,
    pub incognito: bool,
    pub expiration: Option<Date>,
}

/// A bunch with expiry day `expiration` is expired on day `today` once
/// that day has come.
pub open spec fn bunch_expired(expiration: Option<Date>, today: Date) -> bool {
    expiration matches Some(e) && e.julian_day <= today.julian_day
}

/// An expired bunch is no longer served: it is answered as not found (404).
pub fn check_expiry(record: &BunchRecord, today: Date) -> (r: Result<(), AbunchError>)
    ensures
        r is Err <==> bunch_expired(record.expiration, today),
        r matches Err(e) ==> e == AbunchError::StatusCode(404),
{
    match record.expiration {
        Some(e) => {
            if e.julian_day <= today.julian_day {
                Err(AbunchError::StatusCode(404))
            } else {
                Ok(())
            }
        },
        None => Ok(()),
    }
}

/// `check_expiry` on the current UTC day: a bunch without expiry, or with
/// an expiry past every day the clock can read, is always served; one whose
/// expiry lies before every such day is never served.
pub fn check_expiry_today(record: &BunchRecord) -> (r: Result<(), AbunchError>)
    ensures
        record.expiration is None ==> r is Ok,
        r matches Err(e) ==> e == AbunchError::StatusCode(404) && record.expiration is Some,
        r is Err ==> exists|d: Date| is_clock_day(d) && bunch_expired(record.expiration, d),
        (forall|d: Date| is_clock_day(d) ==> !bunch_expired(record.expiration, d)) ==> r is Ok,
        (forall|d: Date| is_clock_day(d) ==> bunch_expired(record.expiration, d)) ==> r is Err,
{
    let now = utc_now();
    check_expiry(record, now.today)
}

/// Whether the creator's name has to be looked up to show the bunch.
pub fn needs_creator_name(record: &BunchRecord) -> (b: bool)
    ensures
        b == !record.incognito,
{
    !record.incognito
}

/// The bunch as it is shown: the creator's name only when the bunch is not
/// incognito, whatever name was passed.
pub fn get_bunch_by_url(record: BunchRecord, creator_name: Option<String>, entries: Vec<Entry>) -> (b: Bunch)
    ensures
        b.title == record.title,
        b.description == record.description,
        b.date == record.date,
        b.open_graph == record.open_graph,
        b.username == (if record.incognito {
            None
        } else {
            creator_name
        }),
        b.entries == entries,
{
    let username = if !record.incognito {
        creator_name
    } else {
        None
    };
    Bunch {
        title: record.title,
        description: record.description,
        date: record.date,
        open_graph: record.open_graph,
        username,
        entries,
    }
}

/// A step in the search for an unused bunch URL.
#[derive(Debug)]
pub enum UrlSearch {
    /// The candidate is unused: take it.
    Accept(BunchURL),
    /// The candidate is taken: try this fresh one.
    Retry(BunchURL),
}

/// Given how many bunches already use `candidate` (as the count query
/// returned it), accepts the candidate when none does and draws a fresh
/// URL otherwise.
pub fn next_bunch_url(candidate: BunchURL, taken: Option<i64>) -> (r: UrlSearch)
    ensures
        taken == Some(0i64) ==> r == UrlSearch::Accept(candidate),
        taken != Some(0i64) ==> (r matches UrlSearch::Retry(u) && is_bunch_url(u@)),
{
    if taken == Some(0i64) {
        UrlSearch::Accept(candidate)
    } else {
        UrlSearch::Retry(BunchURL::new())
    }
}

/// The stored form of a bunch password: `stored` is absent exactly when
/// `password` is, and otherwise a hash that accepts the password.
pub open spec fn stored_password_for(password: Option<Seq<char>>, stored: Option<Seq<char>>) -> bool {
    match password {
        None => stored is None,
        Some(p) => stored matches Some(h) && password_accepted(p, h) && is_bcrypt_2b_10(h),
    }
}

/// The password to store with a new bunch: a bcrypt hash of the password
/// it was created with, or none.
pub fn stored_bunch_password(password: &Option<String>) -> (r: Result<Option<String>, AbunchError>)
    ensures
        r matches Ok(stored) && stored_password_for(opt_string_view(*password), opt_string_view(stored)),
        r is Ok,
{
    match password {
        Some(p) => {
            let h = hash_password(p.as_str())?;
            Ok(Some(h))
        },
        None => Ok(None),
    }
}

/// The creator row to insert for a checked account request.
#[derive(Debug)]
pub struct AccountRecord {
    pub username: String,
    pub password_hash: String,
    pub admin: bool,
}

/// The row to insert for an account whose token has been checked (so
/// `admin` is set): the user name, a bcrypt hash of the password, the
/// admin right.
pub fn new_account(account: NewAccount) -> (r: Result<AccountRecord, AbunchError>)
    requires
        account.admin is Some,
    ensures
        r matches Ok(rec) ==> {
            &&& rec.username == account.username
            &&& password_accepted(account.password@, rec.password_hash@)
            &&& is_bcrypt_2b_10(rec.password_hash@)
            &&& account.password@.len() != BCRYPT_HASH_LEN ==> rec.password_hash@
                != account.password@
            &&& account.admin == Some(rec.admin)
        },
        r is Ok,
{
    let password_hash = hash_password(account.password.as_str())?;
    let admin = account.admin.unwrap();
    Ok(AccountRecord { username: account.username, password_hash, admin })
}

} // verus!
