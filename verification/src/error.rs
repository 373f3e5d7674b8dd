use vstd::prelude::*;

verus! {

/// What went wrong in a database call, as far as the logic needs to know.
#[derive(Debug)]
pub enum DatabaseErrorKind {
    /// The query asked for one row and found none.
    RowNotFound,
    /// Any other failure, with its message.
    Other(String),
}

/// The errors of the service.
#[derive(Debug)]
pub enum AbunchError {
    /// A database call failed.
    DatabaseError(DatabaseErrorKind),
    /// A JSON document could not be read or written; the message says why.
    SerdeError(String),
    /// A failure that is answered with the given HTTP status code.
    StatusCode(u16),
    /// The password given for the named user or bunch is wrong.
    WrongPassword(String),
    /// The text is not a bunch URL.
    BunchURL(String),
    /// The account token is not (or no longer) valid.
    InvalidToken(String),
    /// A password could not be hashed.
    PasswordHash,
}

/// The HTTP status with which an error is answered.
pub open spec fn spec_status(e: AbunchError) -> u16 {
    match e {
        AbunchError::DatabaseError(_) => 500,
        AbunchError::SerdeError(_) => 500,
        AbunchError::StatusCode(code) => code,
        AbunchError::WrongPassword(_) => 401,
        AbunchError::BunchURL(_) => 404,
        AbunchError::InvalidToken(_) => 401,
        AbunchError::PasswordHash => 500,
    }
}

impl AbunchError {
    /// The HTTP status with which this error is answered: server-side
    /// failures are 500, a wrong password 401, a status-code error its own code.
    pub fn respond_to(&self) -> (code: u16)
        ensures
            code == spec_status(*self),
    {
        match self {
            AbunchError::DatabaseError(_) => 500,
            AbunchError::SerdeError(_) => 500,
            AbunchError::StatusCode(code) => *code,
            AbunchError::WrongPassword(_) => 401,
            AbunchError::BunchURL(_) => 404,
            AbunchError::InvalidToken(_) => 401,
            AbunchError::PasswordHash => 500,
        }
    }

    /// Whether this is the database's "no such row" error.
    pub fn is_row_not_found(&self) -> (b: bool)
        ensures
            b <==> (*self matches AbunchError::DatabaseError(DatabaseErrorKind::RowNotFound)),
    {
        match self {
            AbunchError::DatabaseError(DatabaseErrorKind::RowNotFound) => true,
            _ => false,
        }
    }
}

} // verus!
