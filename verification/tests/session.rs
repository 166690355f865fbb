use restaurant_service::session::{
    after_authenticate, after_login, internal_error, logout_status, protected_reply, require_user,
    LoginStep, INTERNAL_SERVER_ERROR, OK, UNAUTHORIZED,
};

#[test]
fn found_user_is_logged_in() {
    let r: Result<Option<&str>, String> = Ok(Some("alice"));
    assert_eq!(after_authenticate(r), LoginStep::LogIn("alice"));
}

#[test]
fn unknown_credentials_are_unauthorized() {
    let r: Result<Option<&str>, String> = Ok(None);
    assert_eq!(after_authenticate(r), LoginStep::Reply(401));
}

#[test]
fn failed_check_is_internal_error() {
    let r: Result<Option<&str>, String> = Err("db down".to_string());
    assert_eq!(after_authenticate(r), LoginStep::Reply(500));
}

#[test]
fn login_status_follows_session() {
    assert_eq!(after_login::<String>(Ok(())), 200);
    assert_eq!(after_login(Err("no session".to_string())), 500);
}

#[test]
fn login_ends_ok_only_with_user_and_session() {
    let outcomes: Vec<Result<Option<u8>, ()>> = vec![Ok(Some(1)), Ok(None), Err(())];
    for auth in outcomes {
        for session_ok in [true, false] {
            let status = match after_authenticate(auth.clone()) {
                LoginStep::LogIn(_) => after_login(if session_ok { Ok(()) } else { Err(()) }),
                LoginStep::Reply(code) => code,
            };
            assert_eq!(status == OK, matches!(auth, Ok(Some(_))) && session_ok);
            assert_eq!(status == UNAUTHORIZED, matches!(auth, Ok(None)));
        }
    }
}

#[test]
fn logout_statuses() {
    assert_eq!(logout_status::<(), ()>(&Ok(())), 200);
    assert_eq!(logout_status::<(), ()>(&Err(())), 500);
}

#[test]
fn missing_user_is_unauthorized_with_empty_body() {
    assert_eq!(require_user::<i32>(None), Err((401, String::new())));
    assert_eq!(require_user(Some(7)), Ok(7));
}

#[test]
fn protected_page_replies() {
    assert_eq!(protected_reply(&Some(1), UNAUTHORIZED), (200, "protected".to_string()));
    assert_eq!(protected_reply::<i32>(&None, UNAUTHORIZED), (401, String::new()));
    assert_eq!(protected_reply::<i32>(&None, INTERNAL_SERVER_ERROR), (500, String::new()));
}

#[test]
fn internal_error_keeps_message() {
    assert_eq!(internal_error("boom".to_string()), (500, "boom".to_string()));
}
