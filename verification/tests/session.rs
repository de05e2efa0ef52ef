use roboat::session::{ClientUserInformation, Session};
use roboat::RoboatError;

#[test]
fn cookie_string_without_token_is_missing_authentication() {
    let session = Session::new(None);
    assert_eq!(session.cookie_string(), Err(RoboatError::MissingAuthentication));
}

#[test]
fn cookie_string_with_token() {
    let session = Session::new(Some("SECRET-REDACTED".to_string()));
    assert_eq!(
        session.cookie_string(),
        Ok(".ROBLOSECURITY=SECRET-REDACTED".to_string())
    );
}

#[test]
fn cookie_string_or_empty_without_token() {
    let session = Session::new(None);
    assert_eq!(session.cookie_string_or_empty(), "".to_string());
}

#[test]
fn cache_starts_empty() {
    let session = Session::new(Some("t".to_string()));
    assert_eq!(session.user_id(), None);
    assert_eq!(session.username(), None);
    assert_eq!(session.display_name(), None);
}

#[test]
fn cache_write_installs_a_complete_record() {
    let mut session = Session::new(Some("t".to_string()));
    session.set_user_information(ClientUserInformation {
        user_id: 2207291,
        username: "builderman".to_string(),
        display_name: "Builderman".to_string(),
    });
    assert_eq!(session.user_id(), Some(2207291));
    assert_eq!(session.username(), Some("builderman".to_string()));
    assert_eq!(session.display_name(), Some("Builderman".to_string()));
}

#[test]
fn cache_last_writer_wins_and_stays_complete() {
    let mut session = Session::new(Some("t".to_string()));
    session.set_user_information(ClientUserInformation {
        user_id: 1,
        username: "a".to_string(),
        display_name: "A".to_string(),
    });
    session.set_user_information(ClientUserInformation {
        user_id: 2,
        username: "b".to_string(),
        display_name: "B".to_string(),
    });
    assert_eq!(session.user_id(), Some(2));
    assert_eq!(session.username(), Some("b".to_string()));
    assert_eq!(session.display_name(), Some("B".to_string()));
}

#[test]
fn cache_write_leaves_token_untouched() {
    let mut session = Session::new(Some("t".to_string()));
    session.set_user_information(ClientUserInformation {
        user_id: 1,
        username: "a".to_string(),
        display_name: "A".to_string(),
    });
    assert_eq!(session.cookie_string(), Ok(".ROBLOSECURITY=t".to_string()));
}
