use abunch::api::Credentials;
use abunch::db::{new_account, verify_user};
use abunch::model::NewAccount;

#[test]
fn padded_password_logs_in() {
    let acc = NewAccount { username: "eve".into(), password: "s3cret".into(), token: "t".into(), admin: Some(false) };
    let rec = new_account(acc).unwrap();
    let typed = Credentials { username: " eve ".into(), password: "\t s3cret\u{3000}".into() };
    let (u, p) = typed.trimmed();
    assert_eq!(verify_user(&u, &p, Ok((4, rec.password_hash))).unwrap(), 4);
}

#[test]
fn password_with_surrounding_space_cannot_log_in() {
    let acc = NewAccount { username: "fay".into(), password: " pw".into(), token: "t".into(), admin: Some(false) };
    let rec = new_account(acc).unwrap();
    let typed = Credentials { username: "fay".into(), password: " pw".into() };
    let (u, p) = typed.trimmed();
    assert!(verify_user(&u, &p, Ok((4, rec.password_hash))).is_err());
}
