use message_service::authentication::authenticate;
use message_service::authentication::is_incomplete;
use message_service::authentication::judge;
use message_service::authentication::user::find_user;
use message_service::authentication::user::ExisitingUser;
use message_service::authentication::validate;
use message_service::authentication::Credentials;
use message_service::authentication::SimpleAuthError;
use message_service::identifier::Identifier;
use message_service::schema::Database;
use message_service::schema::StoreError;
use message_service::schema::User;

fn user(id: u128, name: &str, password: Option<&str>) -> User {
    User {
        id: Identifier::from_u128(id),
        name: name.to_string(),
        surname: "Doe".to_string(),
        email: format!("{}@example.org", name),
        role: "user".to_string(),
        password: password.map(|p| p.to_string()),
    }
}

fn store() -> Database {
    let mut database = Database::new();
    database.users.push(user(1, "alice", Some("wonderland")));
    database.users.push(user(2, "bob", Some("builder")));
    database.users.push(user(3, "carol", None));
    database
}

fn credentials(name: &str, password: Option<&str>) -> Credentials {
    Credentials { user_id: name.to_string(), password: password.map(|p| p.to_string()) }
}

#[test]
fn stored_pairs_authenticate() {
    let database = store();
    assert_eq!(authenticate(&database, &credentials("alice", Some("wonderland"))), Ok(()));
    assert_eq!(authenticate(&database, &credentials("bob", Some("builder"))), Ok(()));
}

#[test]
fn wrong_password_is_refused() {
    let database = store();
    assert_eq!(
        authenticate(&database, &credentials("alice", Some("builder"))),
        Err(SimpleAuthError::CannotAuthenticate)
    );
    assert_eq!(
        authenticate(&database, &credentials("alice", Some("Wonderland"))),
        Err(SimpleAuthError::CannotAuthenticate)
    );
}

#[test]
fn unknown_user_is_refused() {
    let database = store();
    assert_eq!(
        authenticate(&database, &credentials("mallory", Some("wonderland"))),
        Err(SimpleAuthError::CannotAuthenticate)
    );
}

#[test]
fn user_without_stored_password_cannot_authenticate() {
    let database = store();
    assert_eq!(
        authenticate(&database, &credentials("carol", Some("anything"))),
        Err(SimpleAuthError::CannotAuthenticate)
    );
}

#[test]
fn missing_or_empty_password_is_refused_before_the_store() {
    let mut database = store();
    let absent = credentials("alice", None);
    let empty = credentials("alice", Some(""));
    let nameless = credentials("", Some("wonderland"));
    for offline in [false, true] {
        database.online = !offline;
        assert_eq!(
            authenticate(&database, &absent),
            Err(SimpleAuthError::EmptyPasswordNotAllowed)
        );
        assert_eq!(authenticate(&database, &empty), Err(SimpleAuthError::EmptyPasswordNotAllowed));
        assert_eq!(
            authenticate(&database, &nameless),
            Err(SimpleAuthError::EmptyPasswordNotAllowed)
        );
    }
    assert!(is_incomplete(&absent));
    assert!(is_incomplete(&empty));
    assert!(is_incomplete(&nameless));
    assert!(!is_incomplete(&credentials("alice", Some("x"))));
}

#[test]
fn unreachable_store_is_an_internal_error() {
    let mut database = store();
    database.online = false;
    assert_eq!(
        authenticate(&database, &credentials("alice", Some("wonderland"))),
        Err(SimpleAuthError::InternalServerError)
    );
}

#[test]
fn find_user_returns_the_matching_row() {
    let database = store();
    assert_eq!(
        find_user(&credentials("bob", Some("builder")), &database),
        Ok(ExisitingUser { name: "bob".to_string(), password: Some("builder".to_string()) })
    );
    assert_eq!(
        find_user(&credentials("bob", Some("wonderland")), &database),
        Err(StoreError::NotFound)
    );
}

#[test]
fn find_user_fails_when_the_store_is_offline() {
    let mut database = store();
    database.online = false;
    assert_eq!(
        find_user(&credentials("bob", Some("builder")), &database),
        Err(StoreError::Unavailable)
    );
}

#[test]
fn judge_maps_every_answer() {
    let found: Result<ExisitingUser, StoreError> =
        Ok(ExisitingUser { name: "bob".to_string(), password: None });
    assert_eq!(judge(&found), Ok(()));
    let missing: Result<ExisitingUser, StoreError> = Err(StoreError::NotFound);
    assert_eq!(judge(&missing), Err(SimpleAuthError::CannotAuthenticate));
    let offline: Result<ExisitingUser, StoreError> = Err(StoreError::Unavailable);
    assert_eq!(judge(&offline), Err(SimpleAuthError::InternalServerError));
    let refused: Result<ExisitingUser, StoreError> = Err(StoreError::Rejected);
    assert_eq!(judge(&refused), Err(SimpleAuthError::InternalServerError));
}

#[test]
fn authentication_errors_have_their_status_codes() {
    assert_eq!(SimpleAuthError::CannotAuthenticate.status_code(), 401);
    assert_eq!(SimpleAuthError::EmptyPasswordNotAllowed.status_code(), 400);
    assert_eq!(SimpleAuthError::InternalServerError.status_code(), 500);
}

#[test]
fn authentication_errors_have_their_sentences() {
    assert_eq!(SimpleAuthError::CannotAuthenticate.to_text(), "Cannot authenticate user");
    assert_eq!(SimpleAuthError::EmptyPasswordNotAllowed.to_text(), "Password cannot be empty");
    assert_eq!(SimpleAuthError::InternalServerError.to_text(), "Internal server error");
}

#[test]
fn authentication_error_response_carries_code_and_sentence() {
    let response = SimpleAuthError::CannotAuthenticate.error_response();
    assert_eq!(response.status, 401);
    assert_eq!(response.body, "Cannot authenticate user");
    let response = SimpleAuthError::EmptyPasswordNotAllowed.error_response();
    assert_eq!(response.status, 400);
    assert_eq!(response.body, "Password cannot be empty");
}

#[test]
fn validate_lets_an_authenticated_request_through() {
    assert_eq!(validate("request", Some(Ok(()))), Ok("request"));
}

#[test]
fn validate_hands_a_refused_request_back_with_the_reason() {
    assert_eq!(
        validate(7, Some(Err(SimpleAuthError::CannotAuthenticate))),
        Err((SimpleAuthError::CannotAuthenticate, 7))
    );
    assert_eq!(
        validate(7, Some(Err(SimpleAuthError::EmptyPasswordNotAllowed))),
        Err((SimpleAuthError::EmptyPasswordNotAllowed, 7))
    );
}

#[test]
fn validate_counts_a_lost_worker_as_internal_error() {
    assert_eq!(validate(7, None), Err((SimpleAuthError::InternalServerError, 7)));
}
