use message_service::authentication::authenticate;
use message_service::authentication::user::find_user;
use message_service::authentication::user::ExisitingUser;
use message_service::authentication::Credentials;
use message_service::authentication::SimpleAuthError;
use message_service::identifier::Identifier;
use message_service::messages::message::change_message_status;
use message_service::messages::message::create_new_message;
use message_service::messages::message::select_all_messages;
use message_service::messages::message::select_all_messages_with_status;
use message_service::messages::message::Message;
use message_service::messages::message::NewMessage;
use message_service::messages::message::StatusChangeError;
use message_service::messages::recipient::get_recipient_by_name;
use message_service::messages::recipient::Recipient;
use message_service::messages::send_message;
use message_service::messages::sender::get_sender_by_name;
use message_service::messages::sender::select_sender;
use message_service::messages::sender::Sender;
use message_service::messages::NewMessageDTO;
use message_service::messages::ProcessingMessageError;
use message_service::plan::next_authentication_action;
use message_service::plan::next_list_action;
use message_service::plan::next_send_action;
use message_service::plan::next_status_action;
use message_service::plan::next_status_action_for;
use message_service::plan::status_failure_of;
use message_service::plan::AuthenticationAction;
use message_service::plan::ListAction;
use message_service::plan::ListProgress;
use message_service::plan::SendAction;
use message_service::plan::SendProgress;
use message_service::plan::StatusAction;
use message_service::plan::StatusProgress;
use message_service::schema::Database;
use message_service::schema::StoreError;
use message_service::schema::User;

fn user(id: u128, name: &str) -> User {
    User {
        id: Identifier::from_u128(id),
        name: name.to_string(),
        surname: "Doe".to_string(),
        email: format!("{}@example.org", name),
        role: "user".to_string(),
        password: Some("secret".to_string()),
    }
}

fn store() -> Database {
    let mut database = Database::new();
    database.users.push(user(10, "alice"));
    database.users.push(user(20, "bob"));
    database.users.push(user(30, "carol"));
    let senders = [10, 30, 10, 20];
    let recipients = [20, 20, 30, 10];
    let statuses = ["New", "Received", "New", "New"];
    for i in 0..4 {
        database.messages.push(Message {
            id: Identifier::from_u128(i as u128),
            title: format!("title {}", i),
            body: format!("body {}", i),
            status: statuses[i].to_string(),
            sender_id: Identifier::from_u128(senders[i]),
            recipient_id: Identifier::from_u128(recipients[i]),
        });
    }
    database.next_id = 4;
    database
}

fn credentials(name: &str, password: Option<&str>) -> Credentials {
    Credentials { user_id: name.to_string(), password: password.map(|p| p.to_string()) }
}

fn request(title: &str, body: &str, recipient: &str) -> NewMessageDTO {
    NewMessageDTO {
        title: title.to_string(),
        body: body.to_string(),
        recipient: recipient.to_string(),
    }
}

fn run_authentication(database: &Database, claimed: &Credentials) -> (Result<(), SimpleAuthError>, usize) {
    let mut lookup: Option<Result<ExisitingUser, StoreError>> = None;
    let mut questions = 0;
    loop {
        match next_authentication_action(claimed, &lookup) {
            AuthenticationAction::Lookup { name, password } => {
                questions += 1;
                lookup = Some(find_user(
                    &Credentials { user_id: name, password: Some(password) },
                    database,
                ));
            }
            AuthenticationAction::Finish(outcome) => return (outcome, questions),
        }
    }
}

fn run_send(
    database: &mut Database,
    username: &str,
    message: &NewMessageDTO,
) -> (Result<(), ProcessingMessageError>, usize) {
    let mut progress = SendProgress { sender: None, recipient: None, saved: None };
    let mut inserts = 0;
    loop {
        match next_send_action(message, &progress) {
            SendAction::ResolveSender => {
                progress.sender = Some(get_sender_by_name(username, database));
            }
            SendAction::ResolveRecipient => {
                progress.recipient = Some(get_recipient_by_name(&message.recipient, database));
            }
            SendAction::Insert(to_save) => {
                inserts += 1;
                progress.saved = Some(create_new_message(to_save, database));
            }
            SendAction::Finish(outcome) => return (outcome, inserts),
        }
    }
}

fn run_list(
    database: &Database,
    username: &str,
    status: Option<&str>,
) -> Result<Vec<(Message, Sender)>, StoreError> {
    let status = status.map(|s| s.to_string());
    let mut progress = ListProgress { reader: None, messages: None, senders: vec![] };
    loop {
        match next_list_action(&status, &progress) {
            ListAction::ResolveReader => {
                progress.reader = Some(get_recipient_by_name(username, database));
            }
            ListAction::LoadMessages { recipient, status } => {
                progress.messages = Some(if database.online {
                    Ok(database
                        .messages
                        .iter()
                        .filter(|m| {
                            m.recipient_id == recipient
                                && status.as_ref().map_or(true, |s| *s == m.status)
                        })
                        .cloned()
                        .collect())
                } else {
                    Err(StoreError::Unavailable)
                });
            }
            ListAction::ResolveSender { id } => {
                progress.senders.push(select_sender(id, database));
            }
            ListAction::Finish(outcome) => return outcome,
        }
    }
}

fn run_status(
    database: &mut Database,
    username: &str,
    message_uuid: &str,
    status: &str,
) -> (Result<(), StatusChangeError>, usize) {
    let mut progress = StatusProgress { user: None, owned: None, updated: None };
    let mut questions = 0;
    loop {
        let action = next_status_action(message_uuid, status, &progress);
        if !matches!(action, StatusAction::Finish(_)) {
            questions += 1;
        }
        match action {
            StatusAction::ResolveUser => {
                progress.user = Some(get_recipient_by_name(username, database));
            }
            StatusAction::FindOwned { recipient, id } => {
                progress.owned = Some(if !database.online {
                    Err(StoreError::Unavailable)
                } else if database.messages.iter().any(|m| m.recipient_id == recipient && m.id == id)
                {
                    Ok(())
                } else {
                    Err(StoreError::NotFound)
                });
            }
            StatusAction::Update { id, status } => {
                progress.updated = Some(if status.chars().count() > 20 {
                    Err(StoreError::Rejected)
                } else {
                    let mut written = 0;
                    for m in database.messages.iter_mut().filter(|m| m.id == id) {
                        m.status = status.clone();
                        written += 1;
                    }
                    Ok(written)
                });
            }
            StatusAction::Finish(outcome) => return (outcome, questions),
        }
    }
}

#[test]
fn authentication_plan_agrees_with_the_authenticator() {
    let mut database = store();
    let cases = [
        credentials("alice", Some("secret")),
        credentials("alice", Some("wrong")),
        credentials("mallory", Some("secret")),
        credentials("alice", None),
        credentials("alice", Some("")),
        credentials("", Some("secret")),
    ];
    for offline in [false, true] {
        database.online = !offline;
        for claimed in &cases {
            assert_eq!(run_authentication(&database, claimed).0, authenticate(&database, claimed));
        }
    }
}

#[test]
fn authentication_plan_asks_once_or_not_at_all() {
    let database = store();
    assert_eq!(run_authentication(&database, &credentials("alice", Some("secret"))), (Ok(()), 1));
    assert_eq!(
        run_authentication(&database, &credentials("alice", Some("wrong"))),
        (Err(SimpleAuthError::CannotAuthenticate), 1)
    );
    for claimed in [
        credentials("alice", None),
        credentials("alice", Some("")),
        credentials("", Some("secret")),
    ] {
        assert_eq!(
            run_authentication(&database, &claimed),
            (Err(SimpleAuthError::EmptyPasswordNotAllowed), 0)
        );
    }
}

#[test]
fn authentication_plan_first_asks_for_the_claimed_pair() {
    assert_eq!(
        next_authentication_action(&credentials("alice", Some("secret")), &None),
        AuthenticationAction::Lookup { name: "alice".to_string(), password: "secret".to_string() }
    );
}

#[test]
fn send_plan_agrees_with_sending() {
    let cases = [
        ("alice", request("Hi", "there", "bob")),
        ("alice", request("Hi", "there", "mallory")),
        ("mallory", request("Hi", "there", "bob")),
        ("mallory", request("Hi", "there", "nobody")),
        ("bob", request("", "", "bob")),
    ];
    for offline in [false, true] {
        for (username, message) in &cases {
            let mut planned = store();
            planned.online = !offline;
            let mut direct = planned.clone();
            let outcome = run_send(&mut planned, username, message).0;
            assert_eq!(
                outcome,
                send_message(&mut direct, &credentials(username, Some("secret")), message)
            );
            assert_eq!(planned, direct);
        }
    }
}

#[test]
fn send_plan_inserts_nothing_for_an_unknown_recipient() {
    let mut database = store();
    let before = database.clone();
    assert_eq!(
        run_send(&mut database, "alice", &request("Hi", "there", "mallory")),
        (Err(ProcessingMessageError::RecipientNotFound), 0)
    );
    assert_eq!(database, before);
    assert_eq!(run_send(&mut database, "alice", &request("Hi", "there", "bob")), (Ok(()), 1));
    assert_eq!(database.messages.len(), 5);
}

#[test]
fn send_plan_reports_a_refused_insert() {
    let mut database = store();
    database.next_id = u128::MAX;
    assert_eq!(
        run_send(&mut database, "alice", &request("Hi", "there", "bob")),
        (Err(ProcessingMessageError::CannotSaveMessage), 1)
    );
}

#[test]
fn send_plan_composes_the_message_to_insert() {
    let progress = SendProgress {
        sender: Some(Ok(Sender { id: Identifier::from_u128(10), name: "alice".to_string() })),
        recipient: Some(Ok(Recipient { id: Identifier::from_u128(20), name: "bob".to_string() })),
        saved: None,
    };
    assert_eq!(
        next_send_action(&request("Title", "Body", "bob"), &progress),
        SendAction::Insert(NewMessage {
            title: "Title".to_string(),
            body: "Body".to_string(),
            status: "New".to_string(),
            sender_id: Identifier::from_u128(10),
            recipient_id: Identifier::from_u128(20),
        })
    );
}

#[test]
fn list_plan_agrees_with_listing() {
    let mut database = store();
    database.messages.push(Message {
        id: Identifier::from_u128(9),
        title: "orphan".to_string(),
        body: "".to_string(),
        status: "New".to_string(),
        sender_id: Identifier::from_u128(99),
        recipient_id: Identifier::from_u128(30),
    });
    for offline in [false, true] {
        database.online = !offline;
        for username in ["alice", "bob", "carol", "mallory"] {
            assert_eq!(run_list(&database, username, None), select_all_messages(&database, username));
            for status in ["New", "Received", "_Read"] {
                assert_eq!(
                    run_list(&database, username, Some(status)),
                    select_all_messages_with_status(&database, username, status)
                );
            }
        }
    }
}

#[test]
fn list_plan_pairs_messages_with_senders_in_order() {
    let database = store();
    let listed = run_list(&database, "bob", None).unwrap();
    assert_eq!(listed.len(), 2);
    assert_eq!(listed[0].0, database.messages[0]);
    assert_eq!(listed[0].1, Sender { id: Identifier::from_u128(10), name: "alice".to_string() });
    assert_eq!(listed[1].0, database.messages[1]);
    assert_eq!(listed[1].1, Sender { id: Identifier::from_u128(30), name: "carol".to_string() });
}

#[test]
fn list_plan_stops_at_the_first_failure() {
    let progress = ListProgress {
        reader: Some(Ok(Recipient { id: Identifier::from_u128(20), name: "bob".to_string() })),
        messages: Some(Ok(store().messages)),
        senders: vec![
            Ok(Sender { id: Identifier::from_u128(10), name: "alice".to_string() }),
            Err(StoreError::NotFound),
        ],
    };
    assert_eq!(next_list_action(&None, &progress), ListAction::Finish(Err(StoreError::NotFound)));
    let progress = ListProgress { reader: Some(Err(StoreError::Unavailable)), messages: None, senders: vec![] };
    assert_eq!(
        next_list_action(&None, &progress),
        ListAction::Finish(Err(StoreError::Unavailable))
    );
}

#[test]
fn list_plan_hands_the_status_to_the_query() {
    let progress = ListProgress {
        reader: Some(Ok(Recipient { id: Identifier::from_u128(20), name: "bob".to_string() })),
        messages: None,
        senders: vec![],
    };
    assert_eq!(
        next_list_action(&Some("Received".to_string()), &progress),
        ListAction::LoadMessages {
            recipient: Identifier::from_u128(20),
            status: Some("Received".to_string())
        }
    );
    assert_eq!(
        next_list_action(&None, &ListProgress { reader: None, messages: None, senders: vec![] }),
        ListAction::ResolveReader
    );
}

#[test]
fn status_plan_agrees_with_the_change_of_status() {
    let first = Identifier::from_u128(0).to_text();
    let third = Identifier::from_u128(2).to_text();
    let missing = Identifier::from_u128(77).to_text();
    let cases = [
        ("bob", first.as_str(), "Received"),
        ("bob", third.as_str(), "Received"),
        ("bob", missing.as_str(), "Received"),
        ("bob", "nonsense", "Received"),
        ("mallory", first.as_str(), "Received"),
        ("bob", first.as_str(), "123456789012345678901"),
    ];
    for (username, text, status) in cases {
        let mut planned = store();
        let mut direct = planned.clone();
        let outcome = run_status(&mut planned, username, text, status).0;
        assert_eq!(outcome, change_message_status(&mut direct, username, text, status));
        assert_eq!(planned, direct);
    }
}

#[test]
fn status_plan_asks_nothing_for_a_malformed_identifier() {
    let mut database = store();
    assert_eq!(
        run_status(&mut database, "bob", "nonsense", "Received"),
        (Err(StatusChangeError::InvalidIdentifier), 0)
    );
    assert_eq!(
        run_status(&mut database, "bob", &Identifier::from_u128(0).to_text(), "Received"),
        (Ok(()), 3)
    );
    assert_eq!(
        run_status(&mut database, "carol", &Identifier::from_u128(0).to_text(), "Received"),
        (Err(StatusChangeError::OwnershipOrNotFound), 2)
    );
}

#[test]
fn status_plan_tells_missing_rows_from_other_failures() {
    assert_eq!(status_failure_of(&StoreError::NotFound), StatusChangeError::OwnershipOrNotFound);
    assert_eq!(status_failure_of(&StoreError::Unavailable), StatusChangeError::CannotModifyStatus);
    assert_eq!(status_failure_of(&StoreError::Rejected), StatusChangeError::CannotModifyStatus);
    let progress = StatusProgress {
        user: Some(Ok(Recipient { id: Identifier::from_u128(20), name: "bob".to_string() })),
        owned: Some(Ok(())),
        updated: Some(Err(StoreError::Unavailable)),
    };
    assert_eq!(
        next_status_action("00000000-0000-0000-0000-000000000000", "Received", &progress),
        StatusAction::Finish(Err(StatusChangeError::CannotModifyStatus))
    );
}

#[test]
fn status_plan_walks_through_its_questions() {
    let id = Identifier::from_u128(7);
    let bob = Recipient { id: Identifier::from_u128(20), name: "bob".to_string() };
    let mut progress = StatusProgress { user: None, owned: None, updated: None };
    assert_eq!(
        next_status_action_for(None, "Received", &progress),
        StatusAction::Finish(Err(StatusChangeError::InvalidIdentifier))
    );
    assert_eq!(next_status_action_for(Some(id), "Received", &progress), StatusAction::ResolveUser);
    progress.user = Some(Ok(bob));
    assert_eq!(
        next_status_action_for(Some(id), "Received", &progress),
        StatusAction::FindOwned { recipient: Identifier::from_u128(20), id }
    );
    progress.owned = Some(Ok(()));
    assert_eq!(
        next_status_action_for(Some(id), "Received", &progress),
        StatusAction::Update { id, status: "Received".to_string() }
    );
    progress.updated = Some(Ok(1));
    assert_eq!(next_status_action_for(Some(id), "Received", &progress), StatusAction::Finish(Ok(())));
    progress.owned = Some(Err(StoreError::NotFound));
    assert_eq!(
        next_status_action_for(Some(id), "Received", &progress),
        StatusAction::Finish(Err(StatusChangeError::OwnershipOrNotFound))
    );
    progress.user = Some(Err(StoreError::Unavailable));
    assert_eq!(
        next_status_action_for(Some(id), "Received", &progress),
        StatusAction::Finish(Err(StatusChangeError::CannotModifyStatus))
    );
}
