use vstd::prelude::*;

verus! {

/// A calendar day, counted as its Julian day number (1970-01-01 is 2440588).
#[derive(Clone, Copy, Debug, PartialEq, Eq, Structural)]
pub struct Date {
    pub julian_day: i32,
}

/// A bunch as it is shown: its links and who made it, unless incognito.
#[derive(Debug)]
pub struct Bunch {
    pub title: String,
    pub description: Option<String>,
    pub date: Date,
    pub open_graph: bool,
    pub username: Option<String>,
    pub entries: Vec<Entry>,
}

/// A stored link of a bunch.
#[derive(Debug)]
pub struct Entry {
    pub id: i32,
    pub title: Option<String>,
    pub url: String,
    pub description: Option<String>,
}

/// A bunch as it is submitted for creation.
#[derive(Debug)]
pub struct NewBunch {
    pub title: String,
    pub description: Option<String>,
    pub expiration: Option<Date>,
    pub password: Option<String>,
    pub open_graph: bool,
    pub incognito: bool,
    pub entries: Vec<NewEntry>,
}

/// A link as it is submitted with a new bunch.
#[derive(Debug)]
pub struct NewEntry {
    pub url: String,
    pub title: Option<String>,
    pub description: Option<String>,
}

/// An account as it is requested with an invitation token; `admin` is set
/// from the token once the token has been checked.
#[derive(Debug)]
pub struct NewAccount {
    pub username: String,
    pub password: String,
    pub token: String,
    pub admin: Option<bool>,
}

} // verus!
