use message_service::authentication::Credentials;
use message_service::identifier::Identifier;
use message_service::messages::ack_message_receive;
use message_service::messages::acknowledged;
use message_service::messages::compose;
use message_service::messages::get_all_messages;
use message_service::messages::get_all_messages_with_status;
use message_service::messages::message::change_message_status;
use message_service::messages::message::change_status_of_message;
use message_service::messages::message::create_new_message;
use message_service::messages::message::select_all_messages;
use message_service::messages::message::select_all_messages_with_status;
use message_service::messages::message::Message;
use message_service::messages::message::NewMessage;
use message_service::messages::message::StatusChangeError;
use message_service::messages::present;
use message_service::messages::recipient::get_recipient_by_name;
use message_service::messages::recipient::Recipient;
use message_service::messages::send_message;
use message_service::messages::sender::get_sender_by_name;
use message_service::messages::sender::select_sender;
use message_service::messages::sender::Sender;
use message_service::messages::MessageDTO;
use message_service::messages::MessageStatus;
use message_service::messages::NewMessageDTO;
use message_service::messages::ProcessingMessageError;
use message_service::schema::Database;
use message_service::schema::StoreError;
use message_service::schema::User;

fn user(id: u128, name: &str) -> User {
    User {
        id: Identifier::from_u128(id),
        name: name.to_string(),
        surname: "Doe".to_string(),
        email: format!("{}@example.org", name),
        role: "user".to_string(),
        password: Some("secret".to_string()),
    }
}

fn store() -> Database {
    let mut database = Database::new();
    database.users.push(user(10, "alice"));
    database.users.push(user(20, "bob"));
    database.users.push(user(30, "carol"));
    database
}

fn auth(name: &str) -> Credentials {
    Credentials { user_id: name.to_string(), password: Some("secret".to_string()) }
}

fn request(title: &str, body: &str, recipient: &str) -> NewMessageDTO {
    NewMessageDTO {
        title: title.to_string(),
        body: body.to_string(),
        recipient: recipient.to_string(),
    }
}

fn text_of(id: u128) -> String {
    Identifier::from_u128(id).to_text()
}

#[test]
fn lookups_by_name_and_identifier() {
    let database = store();
    assert_eq!(
        get_sender_by_name("bob", &database),
        Ok(Sender { id: Identifier::from_u128(20), name: "bob".to_string() })
    );
    assert_eq!(
        get_recipient_by_name("carol", &database),
        Ok(Recipient { id: Identifier::from_u128(30), name: "carol".to_string() })
    );
    assert_eq!(
        select_sender(Identifier::from_u128(10), &database),
        Ok(Sender { id: Identifier::from_u128(10), name: "alice".to_string() })
    );
    assert_eq!(get_sender_by_name("mallory", &database), Err(StoreError::NotFound));
    assert_eq!(get_recipient_by_name("Bob", &database), Err(StoreError::NotFound));
    assert_eq!(select_sender(Identifier::from_u128(11), &database), Err(StoreError::NotFound));
}

#[test]
fn lookups_fail_when_the_store_is_offline() {
    let mut database = store();
    database.online = false;
    assert_eq!(get_sender_by_name("bob", &database), Err(StoreError::Unavailable));
    assert_eq!(get_recipient_by_name("bob", &database), Err(StoreError::Unavailable));
    assert_eq!(select_sender(Identifier::from_u128(10), &database), Err(StoreError::Unavailable));
    assert_eq!(select_all_messages(&database, "bob"), Err(StoreError::Unavailable));
}

#[test]
fn sending_stores_a_new_message() {
    let mut database = store();
    assert_eq!(send_message(&mut database, &auth("alice"), &request("Hi", "Lunch?", "bob")), Ok(()));
    assert_eq!(
        database.messages,
        vec![Message {
            id: Identifier::from_u128(0),
            title: "Hi".to_string(),
            body: "Lunch?".to_string(),
            status: "New".to_string(),
            sender_id: Identifier::from_u128(10),
            recipient_id: Identifier::from_u128(20),
        }]
    );
    assert_eq!(database.next_id, 1);
}

#[test]
fn sent_messages_are_listed_for_their_recipient() {
    let mut database = store();
    let titles = ["one", "two", "three", "four"];
    for title in titles {
        assert_eq!(send_message(&mut database, &auth("alice"), &request(title, "body", "bob")), Ok(()));
    }
    let listed = get_all_messages(&database, &auth("bob")).unwrap();
    assert_eq!(listed.len(), 4);
    for (entry, title) in listed.iter().zip(titles) {
        assert_eq!(entry.status, "New");
        assert_eq!(entry.title, title);
        assert_eq!(entry.sender, "alice");
    }
    assert_eq!(get_all_messages(&database, &auth("carol")), Ok(vec![]));
    assert_eq!(get_all_messages(&database, &auth("alice")), Ok(vec![]));
}

#[test]
fn round_trip_keeps_title_body_and_sender() {
    let mut database = store();
    send_message(&mut database, &auth("carol"), &request("Noise", "Please stop.", "alice")).unwrap();
    send_message(&mut database, &auth("bob"), &request("Report", "It is done.", "alice")).unwrap();
    assert_eq!(
        get_all_messages(&database, &auth("alice")),
        Ok(vec![
            MessageDTO {
                id: "00000000-0000-0000-0000-000000000000".to_string(),
                sender: "carol".to_string(),
                title: "Noise".to_string(),
                message: "Please stop.".to_string(),
                status: "New".to_string(),
            },
            MessageDTO {
                id: "00000000-0000-0000-0000-000000000001".to_string(),
                sender: "bob".to_string(),
                title: "Report".to_string(),
                message: "It is done.".to_string(),
                status: "New".to_string(),
            },
        ])
    );
}

#[test]
fn unknown_recipient_is_refused_and_nothing_is_inserted() {
    let mut database = store();
    send_message(&mut database, &auth("alice"), &request("Hi", "there", "bob")).unwrap();
    let before = database.clone();
    assert_eq!(
        send_message(&mut database, &auth("alice"), &request("Hi", "there", "mallory")),
        Err(ProcessingMessageError::RecipientNotFound)
    );
    assert_eq!(database, before);
}

#[test]
fn unknown_sender_is_an_internal_error() {
    let mut database = store();
    let before = database.clone();
    assert_eq!(
        send_message(&mut database, &auth("mallory"), &request("Hi", "there", "bob")),
        Err(ProcessingMessageError::InternalServerError)
    );
    assert_eq!(
        send_message(&mut database, &auth("mallory"), &request("Hi", "there", "nobody")),
        Err(ProcessingMessageError::InternalServerError)
    );
    assert_eq!(database, before);
}

#[test]
fn store_that_refuses_the_insert_cannot_save() {
    let mut database = store();
    database.next_id = u128::MAX;
    let before = database.clone();
    assert_eq!(
        send_message(&mut database, &auth("alice"), &request("Hi", "there", "bob")),
        Err(ProcessingMessageError::CannotSaveMessage)
    );
    assert_eq!(database, before);
}

#[test]
fn insertion_checks_the_constraints_of_the_table() {
    let mut database = store();
    let message = |status: &str, sender: u128, recipient: u128| NewMessage {
        title: "t".to_string(),
        body: "b".to_string(),
        status: status.to_string(),
        sender_id: Identifier::from_u128(sender),
        recipient_id: Identifier::from_u128(recipient),
    };
    assert_eq!(create_new_message(message("New", 10, 20), &mut database), Ok(1));
    assert_eq!(create_new_message(message("12345678901234567890", 10, 20), &mut database), Ok(1));
    assert_eq!(
        create_new_message(message("123456789012345678901", 10, 20), &mut database),
        Err(StoreError::Rejected)
    );
    assert_eq!(
        create_new_message(message("New", 11, 20), &mut database),
        Err(StoreError::Rejected)
    );
    assert_eq!(
        create_new_message(message("New", 10, 21), &mut database),
        Err(StoreError::Rejected)
    );
    assert_eq!(database.messages.len(), 2);
    assert_eq!(database.messages[1].id, Identifier::from_u128(1));
    database.online = false;
    assert_eq!(
        create_new_message(message("New", 10, 20), &mut database),
        Err(StoreError::Unavailable)
    );
}

#[test]
fn status_length_counts_characters() {
    let mut database = store();
    let label = "ääääääääääääääääääää";
    assert_eq!(label.chars().count(), 20);
    let message = NewMessage {
        title: "t".to_string(),
        body: "b".to_string(),
        status: label.to_string(),
        sender_id: Identifier::from_u128(10),
        recipient_id: Identifier::from_u128(20),
    };
    assert_eq!(create_new_message(message, &mut database), Ok(1));
}

#[test]
fn nothing_is_received_before_acknowledgement() {
    let mut database = store();
    send_message(&mut database, &auth("alice"), &request("a", "1", "bob")).unwrap();
    send_message(&mut database, &auth("carol"), &request("b", "2", "bob")).unwrap();
    assert_eq!(get_all_messages_with_status("Received", &database, &auth("bob")), Ok(vec![]));
    assert_eq!(
        get_all_messages_with_status("New", &database, &auth("bob")).unwrap().len(),
        2
    );
}

#[test]
fn acknowledged_message_moves_from_new_to_received() {
    let mut database = store();
    send_message(&mut database, &auth("alice"), &request("a", "1", "bob")).unwrap();
    send_message(&mut database, &auth("carol"), &request("b", "2", "bob")).unwrap();
    send_message(&mut database, &auth("alice"), &request("c", "3", "carol")).unwrap();
    let second = get_all_messages(&database, &auth("bob")).unwrap()[1].id.clone();
    assert_eq!(ack_message_receive(&second, &mut database, &auth("bob")), Ok(()));
    assert_eq!(
        get_all_messages_with_status("Received", &database, &auth("bob")),
        Ok(vec![MessageDTO {
            id: second.clone(),
            sender: "carol".to_string(),
            title: "b".to_string(),
            message: "2".to_string(),
            status: "Received".to_string(),
        }])
    );
    let fresh = get_all_messages_with_status("New", &database, &auth("bob")).unwrap();
    assert_eq!(fresh.len(), 1);
    assert_eq!(fresh[0].title, "a");
    assert!(fresh.iter().all(|entry| entry.id != second));
    assert_eq!(get_all_messages(&database, &auth("bob")).unwrap().len(), 2);
    assert_eq!(database.messages[2].status, "New");
}

#[test]
fn acknowledging_twice_succeeds_twice() {
    let mut database = store();
    send_message(&mut database, &auth("alice"), &request("a", "1", "bob")).unwrap();
    let id = text_of(0);
    assert_eq!(ack_message_receive(&id, &mut database, &auth("bob")), Ok(()));
    let once = database.clone();
    assert_eq!(database.messages[0].status, "Received");
    assert_eq!(ack_message_receive(&id, &mut database, &auth("bob")), Ok(()));
    assert_eq!(database, once);
}

#[test]
fn foreign_message_cannot_be_told_from_a_missing_one() {
    let mut database = store();
    send_message(&mut database, &auth("alice"), &request("a", "1", "bob")).unwrap();
    let before = database.clone();
    let foreign = change_message_status(&mut database, "carol", &text_of(0), "Received");
    let missing = change_message_status(&mut database, "carol", &text_of(77), "Received");
    assert_eq!(foreign, Err(StatusChangeError::OwnershipOrNotFound));
    assert_eq!(foreign, missing);
    assert_eq!(
        ack_message_receive(&text_of(0), &mut database, &auth("carol")),
        Err(ProcessingMessageError::CannotModifyMesageStatus)
    );
    assert_eq!(
        ack_message_receive(&text_of(77), &mut database, &auth("carol")),
        Err(ProcessingMessageError::CannotModifyMesageStatus)
    );
    assert_eq!(database, before);
}

#[test]
fn sender_cannot_acknowledge_their_own_message() {
    let mut database = store();
    send_message(&mut database, &auth("alice"), &request("a", "1", "bob")).unwrap();
    assert_eq!(
        change_message_status(&mut database, "alice", &text_of(0), "Received"),
        Err(StatusChangeError::OwnershipOrNotFound)
    );
    assert_eq!(database.messages[0].status, "New");
}

#[test]
fn malformed_identifier_is_refused_before_the_store() {
    let mut database = store();
    send_message(&mut database, &auth("alice"), &request("a", "1", "bob")).unwrap();
    database.online = false;
    assert_eq!(
        change_message_status(&mut database, "bob", "zero", "Received"),
        Err(StatusChangeError::InvalidIdentifier)
    );
    assert_eq!(
        change_message_status(&mut database, "bob", "", "Received"),
        Err(StatusChangeError::InvalidIdentifier)
    );
    assert_eq!(
        ack_message_receive("0", &mut database, &auth("bob")),
        Err(ProcessingMessageError::CannotModifyMesageStatus)
    );
}

#[test]
fn status_change_fails_when_the_store_fails() {
    let mut database = store();
    send_message(&mut database, &auth("alice"), &request("a", "1", "bob")).unwrap();
    assert_eq!(
        change_message_status(&mut database, "bob", &text_of(0), "123456789012345678901"),
        Err(StatusChangeError::CannotModifyStatus)
    );
    assert_eq!(database.messages[0].status, "New");
    database.online = false;
    assert_eq!(
        change_message_status(&mut database, "bob", &text_of(0), "Received"),
        Err(StatusChangeError::CannotModifyStatus)
    );
    assert_eq!(database.messages[0].status, "New");
}

#[test]
fn status_change_by_an_unknown_user_is_a_matter_of_ownership() {
    let mut database = store();
    send_message(&mut database, &auth("alice"), &request("a", "1", "bob")).unwrap();
    assert_eq!(
        change_message_status(&mut database, "mallory", &text_of(0), "Received"),
        Err(StatusChangeError::OwnershipOrNotFound)
    );
}

#[test]
fn status_change_accepts_every_form_of_the_identifier() {
    let mut database = store();
    send_message(&mut database, &auth("alice"), &request("a", "1", "bob")).unwrap();
    assert_eq!(
        change_message_status(
            &mut database,
            "bob",
            "{00000000-0000-0000-0000-000000000000}",
            "Received"
        ),
        Ok(())
    );
    assert_eq!(database.messages[0].status, "Received");
    assert_eq!(
        change_message_status(&mut database, "bob", "00000000000000000000000000000000", "Seen"),
        Ok(())
    );
    assert_eq!(database.messages[0].status, "Seen");
}

#[test]
fn listing_with_status_selects_exactly_that_status() {
    let mut database = store();
    send_message(&mut database, &auth("alice"), &request("a", "1", "bob")).unwrap();
    send_message(&mut database, &auth("alice"), &request("b", "2", "bob")).unwrap();
    change_message_status(&mut database, "bob", &text_of(1), "Received").unwrap();
    let received = select_all_messages_with_status(&database, "bob", "Received").unwrap();
    assert_eq!(received.len(), 1);
    assert_eq!(received[0].0, database.messages[1]);
    assert_eq!(received[0].1, Sender { id: Identifier::from_u128(10), name: "alice".to_string() });
    assert_eq!(select_all_messages_with_status(&database, "bob", "received"), Ok(vec![]));
    assert_eq!(select_all_messages(&database, "bob").unwrap().len(), 2);
    assert_eq!(
        select_all_messages_with_status(&database, "mallory", "New"),
        Err(StoreError::NotFound)
    );
}

#[test]
fn listing_fails_when_a_sender_is_missing() {
    let mut database = store();
    database.messages.push(Message {
        id: Identifier::from_u128(5),
        title: "t".to_string(),
        body: "b".to_string(),
        status: "New".to_string(),
        sender_id: Identifier::from_u128(99),
        recipient_id: Identifier::from_u128(20),
    });
    assert_eq!(select_all_messages(&database, "bob"), Err(StoreError::NotFound));
    assert_eq!(
        get_all_messages(&database, &auth("bob")),
        Err(ProcessingMessageError::InternalServerError)
    );
    assert_eq!(select_all_messages(&database, "alice"), Ok(vec![]));
}

#[test]
fn listing_for_an_unknown_user_is_an_internal_error() {
    let database = store();
    assert_eq!(select_all_messages(&database, "mallory"), Err(StoreError::NotFound));
    assert_eq!(
        get_all_messages(&database, &auth("mallory")),
        Err(ProcessingMessageError::InternalServerError)
    );
}

#[test]
fn unrecognized_status_is_refused_before_the_store() {
    let mut database = store();
    database.online = false;
    for label in ["", "new", "NEW", "Read", "Deleted", "Received ", "Unknown"] {
        assert_eq!(
            get_all_messages_with_status(label, &database, &auth("bob")),
            Err(ProcessingMessageError::UnrecognizedStatus)
        );
    }
    assert_eq!(
        get_all_messages_with_status("New", &database, &auth("bob")),
        Err(ProcessingMessageError::InternalServerError)
    );
}

#[test]
fn reserved_statuses_are_recognized_and_select_nothing() {
    let mut database = store();
    send_message(&mut database, &auth("alice"), &request("a", "1", "bob")).unwrap();
    assert_eq!(get_all_messages_with_status("_Read", &database, &auth("bob")), Ok(vec![]));
    assert_eq!(get_all_messages_with_status("_Deleted", &database, &auth("bob")), Ok(vec![]));
}

#[test]
fn status_labels() {
    assert_eq!(MessageStatus::New.to_text(), "New");
    assert_eq!(MessageStatus::Received.to_text(), "Received");
    assert_eq!(MessageStatus::_Read.to_text(), "_Read");
    assert_eq!(MessageStatus::_Deleted.to_text(), "_Deleted");
    for status in [
        MessageStatus::New,
        MessageStatus::Received,
        MessageStatus::_Read,
        MessageStatus::_Deleted,
    ] {
        assert_eq!(MessageStatus::from_label(&status.to_text()), Some(status));
    }
    assert_eq!(MessageStatus::from_label("received"), None);
    assert_eq!(MessageStatus::from_label("Read"), None);
}

#[test]
fn message_is_shown_with_printed_identifier_and_sender_name() {
    let message = Message {
        id: Identifier::from_u128(0xa1a2a3a4b1b2c1c2d1d2d3d4d5d6d7d8),
        title: "Title".to_string(),
        body: "Body".to_string(),
        status: "Received".to_string(),
        sender_id: Identifier::from_u128(10),
        recipient_id: Identifier::from_u128(20),
    };
    let sender = Sender { id: Identifier::from_u128(10), name: "alice".to_string() };
    assert_eq!(
        MessageDTO::from(message, sender),
        MessageDTO {
            id: "a1a2a3a4-b1b2-c1c2-d1d2-d3d4d5d6d7d8".to_string(),
            sender: "alice".to_string(),
            title: "Title".to_string(),
            message: "Body".to_string(),
            status: "Received".to_string(),
        }
    );
}

#[test]
fn present_maps_listings_and_failures() {
    assert_eq!(present(Err(StoreError::NotFound)), Err(ProcessingMessageError::InternalServerError));
    assert_eq!(
        present(Err(StoreError::Unavailable)),
        Err(ProcessingMessageError::InternalServerError)
    );
    assert_eq!(present(Ok(vec![])), Ok(vec![]));
}

#[test]
fn acknowledged_maps_every_failure_to_one_error() {
    assert_eq!(acknowledged(Ok(())), Ok(()));
    for failure in [
        StatusChangeError::InvalidIdentifier,
        StatusChangeError::OwnershipOrNotFound,
        StatusChangeError::CannotModifyStatus,
    ] {
        assert_eq!(
            acknowledged(Err(failure)),
            Err(ProcessingMessageError::CannotModifyMesageStatus)
        );
    }
}

#[test]
fn composed_message_is_new() {
    let sender = Sender { id: Identifier::from_u128(10), name: "alice".to_string() };
    let recipient = Recipient { id: Identifier::from_u128(20), name: "bob".to_string() };
    assert_eq!(
        compose(&request("Title", "Body", "bob"), &sender, &recipient),
        NewMessage {
            title: "Title".to_string(),
            body: "Body".to_string(),
            status: "New".to_string(),
            sender_id: Identifier::from_u128(10),
            recipient_id: Identifier::from_u128(20),
        }
    );
}

#[test]
fn workflow_errors_have_their_status_codes_and_sentences() {
    let expected = [
        (ProcessingMessageError::RecipientNotFound, 400, "Message recipient not found"),
        (ProcessingMessageError::CannotSaveMessage, 500, "Error while saving message"),
        (
            ProcessingMessageError::CannotModifyMesageStatus,
            400,
            "Error while modifying message status",
        ),
        (ProcessingMessageError::UnrecognizedStatus, 400, "Unrecognized message status"),
        (ProcessingMessageError::InternalServerError, 500, "Internal server error"),
    ];
    for (error, code, sentence) in expected {
        assert_eq!(error.status_code(), code);
        assert_eq!(error.to_text(), sentence);
        let response = error.error_response();
        assert_eq!(response.status, code);
        assert_eq!(response.body, sentence);
    }
}

#[test]
fn new_store_is_empty_and_online() {
    let database = Database::new();
    assert!(database.users.is_empty());
    assert!(database.messages.is_empty());
    assert_eq!(database.next_id, 0);
    assert!(database.online);
}

#[test]
fn first_user_with_a_name_is_the_one_found() {
    let mut database = store();
    database.users.push(user(40, "bob"));
    assert_eq!(database.position_by_name(&"bob".to_string()), Some(1));
    assert_eq!(database.position_by_id(Identifier::from_u128(40)), Some(3));
    assert_eq!(database.position_by_id(Identifier::from_u128(41)), None);
    assert_eq!(
        database.position_by_credentials(&"bob".to_string(), &"secret".to_string()),
        Some(1)
    );
    assert_eq!(
        database.position_by_credentials(&"bob".to_string(), &"Secret".to_string()),
        None
    );
}

#[test]
fn status_changes_by_identifier_as_by_text() {
    let mut database = store();
    send_message(&mut database, &auth("alice"), &request("a", "1", "bob")).unwrap();
    send_message(&mut database, &auth("alice"), &request("b", "2", "carol")).unwrap();
    let first = Identifier::from_u128(0);
    assert_eq!(
        change_status_of_message(&mut database, "carol", first, "Received"),
        Err(StatusChangeError::OwnershipOrNotFound)
    );
    assert_eq!(
        change_status_of_message(&mut database, "bob", Identifier::from_u128(2), "Received"),
        Err(StatusChangeError::OwnershipOrNotFound)
    );
    assert_eq!(change_status_of_message(&mut database, "bob", first, "Received"), Ok(()));
    assert_eq!(database.messages[0].status, "Received");
    assert_eq!(database.messages[1].status, "New");
    assert_eq!(database.messages[0].title, "a");
    assert_eq!(database.messages[0].body, "1");
}
