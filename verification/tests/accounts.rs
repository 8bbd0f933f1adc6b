use minstrel::accounts::{AccountEvent, AccountStep, LinkStage, Linking, Login, LoginKind, RegisterStage, Registration};
use minstrel::model::UserMgmtError;
use minstrel::usermgmt::{AuthType, LinkTable, UserInfo, authenticate_with, hash_password, verify_password};

fn info() -> UserInfo {
    UserInfo { displayname: "Alice".to_string(), icon: None }
}

fn done(step: AccountStep) -> Result<i64, UserMgmtError> {
    match step {
        AccountStep::Done(r) => r,
        other => panic!("expected the end, got {:?}", other),
    }
}

#[test]
fn hashed_password_verifies() {
    let h = hash_password(&"hunter2".to_string()).unwrap();
    assert_ne!(h, "hunter2");
    assert_eq!(verify_password(&"hunter2".to_string(), &h), Ok(true));
    assert_eq!(verify_password(&"wrong".to_string(), &h), Ok(false));
    assert_eq!(verify_password(&"x".to_string(), &"not a hash".to_string()), Err(UserMgmtError::UnknownError));
}

#[test]
fn authentication() {
    let h = hash_password(&"pw".to_string()).unwrap();
    assert_eq!(authenticate_with(None, "pw".to_string()), Ok(None));
    assert_eq!(authenticate_with(Some((5, h.clone())), "pw".to_string()), Ok(Some(5)));
    assert_eq!(authenticate_with(Some((5, h)), "nope".to_string()), Ok(None));
}

#[test]
fn link_codes_are_used_once() {
    let mut links = LinkTable::new();
    let code = links.create_link(7, 1000, 60).unwrap();
    assert_eq!(links.create_link(7, 1010, 60), Ok(code));
    assert_eq!(links.take_link(code, 1030, 60), Ok(7));
    assert_eq!(links.take_link(code, 1031, 60), Err(UserMgmtError::InvalidLink));
}

#[test]
fn expired_link_codes_are_refused() {
    let mut links = LinkTable::new();
    let code = links.create_link(7, 1000, 60).unwrap();
    assert_eq!(links.take_link(code, 1060, 60), Err(UserMgmtError::InvalidLink));
    assert_eq!(links.take_link(code, 1000, 60), Err(UserMgmtError::InvalidLink));
}

#[test]
fn register_with_discord() {
    let (mut reg, first) = Registration::start(AuthType::Discord(55), info());
    assert!(matches!(first, AccountStep::CheckLogin(AuthType::Discord(55))));
    match reg.step(AccountEvent::Answer(false)) {
        AccountStep::MakeUser(i) => assert_eq!(i.displayname, "Alice"),
        other => panic!("expected to make the user, got {:?}", other),
    }
    assert!(matches!(reg.step(AccountEvent::UserMade(12)), AccountStep::StoreLogin(12, Login::Discord(55))));
    assert_eq!(done(reg.step(AccountEvent::Stored)), Ok(12));
    assert_eq!(reg.stage, RegisterStage::Finished);
}

#[test]
fn register_taken_login() {
    let (mut reg, _) = Registration::start(AuthType::Discord(55), info());
    assert_eq!(done(reg.step(AccountEvent::Answer(true))), Err(UserMgmtError::UserExists));
}

#[test]
fn register_database_failure() {
    let (mut reg, _) = Registration::start(AuthType::Discord(55), info());
    assert_eq!(done(reg.step(AccountEvent::DbFailed)), Err(UserMgmtError::DbError));
}

#[test]
fn register_store_failure_deletes_user() {
    let (mut reg, _) = Registration::start(AuthType::UserAuth("al".to_string(), "pw".to_string()), info());
    let _ = reg.step(AccountEvent::Answer(false));
    match reg.step(AccountEvent::UserMade(3)) {
        AccountStep::StoreLogin(3, Login::Password(name, hash)) => {
            assert_eq!(name, "al");
            assert_eq!(verify_password(&"pw".to_string(), &hash), Ok(true));
        },
        other => panic!("expected to store the login, got {:?}", other),
    }
    assert!(matches!(reg.step(AccountEvent::DbFailed), AccountStep::DeleteUser(3)));
    assert_eq!(done(reg.step(AccountEvent::Deleted)), Err(UserMgmtError::DbError));
}

#[test]
fn register_unexpected_event() {
    let (mut reg, _) = Registration::start(AuthType::Discord(1), info());
    assert_eq!(done(reg.step(AccountEvent::Deleted)), Err(UserMgmtError::UnknownError));
}

#[test]
fn link_second_login() {
    let mut links = LinkTable::new();
    let code = links.create_link(9, 100, 60).unwrap();
    let (mut linking, first) = Linking::start(&mut links, code, 110, 60, AuthType::Discord(77));
    assert!(matches!(first, AccountStep::CheckUser(9)));
    assert!(matches!(linking.step(AccountEvent::Answer(true)), AccountStep::CheckUserLogin(9, LoginKind::Discord)));
    assert!(matches!(linking.step(AccountEvent::Answer(false)), AccountStep::StoreLogin(9, Login::Discord(77))));
    assert_eq!(done(linking.step(AccountEvent::Stored)), Ok(9));
    assert_eq!(linking.stage, LinkStage::Finished);
}

#[test]
fn link_with_bad_code() {
    let mut links = LinkTable::new();
    let (_, first) = Linking::start(&mut links, 1234, 0, 60, AuthType::Discord(77));
    assert_eq!(done(first), Err(UserMgmtError::InvalidLink));
}

#[test]
fn link_refusals() {
    let mut links = LinkTable::new();
    let code = links.create_link(9, 100, 60).unwrap();
    let (mut linking, _) = Linking::start(&mut links, code, 110, 60, AuthType::Discord(77));
    assert_eq!(done(linking.step(AccountEvent::Answer(false))), Err(UserMgmtError::UserDoesNotExist));

    let code = links.create_link(9, 100, 60).unwrap();
    let (mut linking, _) = Linking::start(&mut links, code, 110, 60, AuthType::Discord(77));
    let _ = linking.step(AccountEvent::Answer(true));
    assert_eq!(done(linking.step(AccountEvent::Answer(true))), Err(UserMgmtError::UserExists));

    let code = links.create_link(9, 100, 60).unwrap();
    let (mut linking, _) = Linking::start(&mut links, code, 110, 60, AuthType::Discord(77));
    assert_eq!(done(linking.step(AccountEvent::DbFailed)), Err(UserMgmtError::DbError));
}

#[test]
fn placing_a_drawn_code() {
    let mut links = LinkTable::new();
    let a = links.create_link(1, 100, 60).unwrap();
    assert_eq!(links.place_link(2, 100, &vec![a, a, 77]), Ok(77));
    assert_eq!(links.take_link(77, 110, 60), Ok(2));
    let b = links.create_link(3, 100, 60).unwrap();
    assert_eq!(links.place_link(4, 100, &vec![a, b]), Err(UserMgmtError::UnknownError));
    assert_eq!(links.place_link(4, 100, &Vec::new()), Err(UserMgmtError::UnknownError));
}
