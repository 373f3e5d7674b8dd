use abunch::error::{AbunchError, DatabaseErrorKind};

#[test]
fn error_statuses() {
    assert_eq!(AbunchError::DatabaseError(DatabaseErrorKind::RowNotFound).respond_to(), 500);
    assert_eq!(AbunchError::DatabaseError(DatabaseErrorKind::Other("x".into())).respond_to(), 500);
    assert_eq!(AbunchError::SerdeError("bad json".into()).respond_to(), 500);
    assert_eq!(AbunchError::StatusCode(403).respond_to(), 403);
    assert_eq!(AbunchError::StatusCode(413).respond_to(), 413);
    assert_eq!(AbunchError::WrongPassword("bob".into()).respond_to(), 401);
    assert_eq!(AbunchError::BunchURL("x".into()).respond_to(), 404);
    assert_eq!(AbunchError::InvalidToken("t".into()).respond_to(), 401);
    assert_eq!(AbunchError::PasswordHash.respond_to(), 500);
}

#[test]
fn row_not_found_is_recognised() {
    assert!(AbunchError::DatabaseError(DatabaseErrorKind::RowNotFound).is_row_not_found());
    assert!(!AbunchError::DatabaseError(DatabaseErrorKind::Other("x".into())).is_row_not_found());
    assert!(!AbunchError::StatusCode(404).is_row_not_found());
}
