//! What holds of the operations taken together, proved over the model of
//! the tables.

use crate::authentication::authentication;
use crate::authentication::incomplete;
use crate::authentication::SimpleAuthError;
use crate::identifier::uuid_from_text;
use crate::identifier::uuid_to_text;
use crate::messages::acknowledgement;
use crate::messages::after_acknowledgement;
use crate::messages::after_sending;
use crate::messages::composed;
use crate::messages::filtered_overview;
use crate::messages::message::after_status_change;
use crate::messages::message::lemma_insertion_keeps_wf;
use crate::messages::message::lemma_status_change_keeps_wf;
use crate::messages::message::owned;
use crate::messages::message::restatus;
use crate::messages::message::selected;
use crate::messages::message::selection;
use crate::messages::message::status_change;
use crate::messages::message::status_change_of;
use crate::messages::message::with_sender;
use crate::messages::message::MessageRow;
use crate::messages::message::StatusChangeError;
use crate::messages::outgoing;
use crate::messages::overview;
use crate::messages::sending;
use crate::messages::shown_pair;
use crate::messages::MessageDTO;
use crate::messages::MessageDTOView;
use crate::messages::MessageStatus;
use crate::messages::NewMessageDTOView;
use crate::messages::ProcessingMessageError;
use crate::schema::first_match;
use crate::schema::holding;
use crate::schema::identified;
use crate::schema::is_first_match;
use crate::schema::lemma_filter_none;
use crate::schema::lemma_filter_single;
use crate::schema::lemma_first_match_exists;
use crate::schema::lemma_first_match_is_row;
use crate::schema::named;
use crate::schema::Credential;
use crate::schema::Identity;
use crate::schema::StoreError;
use crate::schema::Tables;
use vstd::prelude::*;

verus! {

/// In well-formed tables a user is found by their own identifier.
pub proof fn lemma_user_by_own_id(tables: Tables, k: int)
    requires
        tables.wf(),
        0 <= k < tables.users.len(),
    ensures
        first_match(tables.users, identified(tables.users[k].id)) == Some(tables.users[k]),
{
    let wanted = identified(tables.users[k].id);
    lemma_first_match_exists(tables.users, wanted, k);
    let j = choose|j: int|
        0 <= j <= k && is_first_match(tables.users, wanted, j) && first_match(tables.users, wanted)
            == Some(tables.users[j]);
    if j < k {
        assert(tables.users[j].id != tables.users[k].id);
    }
}

/// Credentials that match a stored row are accepted, whenever the store
/// answers and neither the name nor the password is empty.
pub proof fn law_matching_credentials_authenticate(
    tables: Tables,
    name: Seq<char>,
    password: Seq<char>,
    i: int,
)
    requires
        tables.online,
        name.len() > 0,
        password.len() > 0,
        0 <= i < tables.users.len(),
        tables.users[i].name == name,
        tables.users[i].password == Some(password),
    ensures
        authentication(tables, Credential { name, password: Some(password) }) == Ok::<
            (),
            SimpleAuthError,
        >(()),
{
    lemma_first_match_exists(tables.users, holding(name, password), i);
}

/// Credentials are accepted exactly when they are complete, the store
/// answers, and some stored row carries that name with that password.
pub proof fn law_authentication_accepts_exactly_stored_pairs(
    tables: Tables,
    credentials: Credential,
)
    ensures
        authentication(tables, credentials) is Ok <==> (!incomplete(credentials) && tables.online
            && exists|i: int|
            0 <= i < tables.users.len() && (#[trigger] tables.users[i]).name == credentials.name
                && tables.users[i].password == credentials.password),
{
    if !incomplete(credentials) && tables.online {
        let wanted = holding(credentials.name, credentials.password.unwrap());
        if authentication(tables, credentials) is Ok {
            lemma_first_match_is_row(tables.users, wanted);
            let k = choose|k: int|
                is_first_match(tables.users, wanted, k) && first_match(tables.users, wanted)
                    == Some(tables.users[k]);
            assert(tables.users[k].name == credentials.name);
        }
        if exists|i: int|
            0 <= i < tables.users.len() && (#[trigger] tables.users[i]).name == credentials.name
                && tables.users[i].password == credentials.password {
            let i = choose|i: int|
                0 <= i < tables.users.len() && (#[trigger] tables.users[i]).name
                    == credentials.name && tables.users[i].password == credentials.password;
            lemma_first_match_exists(tables.users, wanted, i);
        }
    }
}

/// A missing or empty password, and an empty user name, are refused
/// whatever the store holds and whether or not it answers: the outcome does
/// not depend on the store.
pub proof fn law_incomplete_credentials_are_refused_whatever_the_store(
    tables: Tables,
    credentials: Credential,
)
    requires
        incomplete(credentials),
    ensures
        authentication(tables, credentials) == Err::<(), SimpleAuthError>(
            SimpleAuthError::EmptyPasswordNotAllowed,
        ),
{
}

/// A message for a recipient that no user is called is refused as the
/// client's mistake, and nothing is inserted.
pub proof fn law_unknown_recipient_inserts_nothing(
    tables: Tables,
    username: Seq<char>,
    request: NewMessageDTOView,
)
    requires
        tables.identity_by_name(username) is Ok,
        first_match(tables.users, named(request.recipient)) is None,
    ensures
        sending(tables, username, request) == Err::<(), ProcessingMessageError>(
            ProcessingMessageError::RecipientNotFound,
        ),
        after_sending(tables, username, request) == tables,
{
}

/// In well-formed tables every listing for a known user succeeds, with one
/// entry for each selected message.
pub proof fn lemma_selection_succeeds(
    tables: Tables,
    username: Seq<char>,
    status: Option<Seq<char>>,
)
    requires
        tables.wf(),
        tables.identity_by_name(username) is Ok,
    ensures
        selection(tables, username, status) is Ok,
        selection(tables, username, status).unwrap() == tables.messages.filter(
            selected(tables.identity_by_name(username).unwrap().id, status),
        ).map_values(with_sender(tables.users)),
{
    let reader = tables.identity_by_name(username).unwrap().id;
    let wanted = selected(reader, status);
    let found = tables.messages.filter(wanted);
    assert forall|i: int| 0 <= i < found.len() implies first_match(
        tables.users,
        identified((#[trigger] found[i]).sender_id),
    ) is Some by {
        assert(found.contains(found[i]));
        tables.messages.lemma_filter_contains_rev(wanted, found[i]);
        let k = choose|k: int| 0 <= k < tables.messages.len() && tables.messages[k] == found[i];
        assert(tables.messages[k] == found[i]);
    }
}

/// A message that is sent is inserted at the end of the table, as new,
/// under the identifier that was next, and the tables stay well-formed.
pub proof fn lemma_sending_appends(tables: Tables, username: Seq<char>, request: NewMessageDTOView)
    requires
        tables.wf(),
        sending(tables, username, request) is Ok,
    ensures
        ({
            let after = after_sending(tables, username, request);
            let sender = tables.identity_by_name(username).unwrap();
            let recipient = tables.identity_by_name(request.recipient).unwrap();
            let stored = composed(request, sender.id, recipient.id).stored_as(tables.next_id);
            &&& after.wf()
            &&& after.users == tables.users
            &&& after.online
            &&& after.messages == tables.messages.push(stored)
            &&& sender.name == username
            &&& recipient.name == request.recipient
            &&& with_sender(tables.users)(stored) == (stored, sender)
        }),
{
    let after = after_sending(tables, username, request);
    let sender = tables.identity_by_name(username).unwrap();
    let recipient = tables.identity_by_name(request.recipient).unwrap();
    let stored = composed(request, sender.id, recipient.id).stored_as(tables.next_id);
    reveal_strlit("New");
    assert(after.messages == tables.messages.push(stored));
    lemma_first_match_is_row(tables.users, named(username));
    lemma_first_match_is_row(tables.users, named(request.recipient));
    let k = choose|k: int|
        is_first_match(tables.users, named(username), k) && first_match(
            tables.users,
            named(username),
        ) == Some(tables.users[k]);
    lemma_user_by_own_id(tables, k);
    lemma_insertion_keeps_wf(
        tables,
        composed(request, sender.id, recipient.id),
    );
}

/// What a user is shown after a message was sent: what they were shown
/// before, followed by the new message if it is addressed to them and the
/// listing selects its status.
pub proof fn lemma_listing_after_sending(
    tables: Tables,
    username: Seq<char>,
    request: NewMessageDTOView,
    reader: Seq<char>,
    status: Option<Seq<char>>,
)
    requires
        tables.wf(),
        sending(tables, username, request) is Ok,
        tables.identity_by_name(reader) is Ok,
    ensures
        ({
            let after = after_sending(tables, username, request);
            let sender = tables.identity_by_name(username).unwrap();
            let stored = outgoing(tables, username, request).unwrap().stored_as(tables.next_id);
            let before = selection(tables, reader, status);
            &&& before is Ok
            &&& selection(after, reader, status) is Ok
            &&& selection(after, reader, status).unwrap() == if selected(
                tables.identity_by_name(reader).unwrap().id,
                status,
            )(stored) {
                before.unwrap().push((stored, sender))
            } else {
                before.unwrap()
            }
        }),
{
    let after = after_sending(tables, username, request);
    let stored = outgoing(tables, username, request).unwrap().stored_as(tables.next_id);
    let wanted = selected(tables.identity_by_name(reader).unwrap().id, status);
    lemma_sending_appends(tables, username, request);
    lemma_selection_succeeds(tables, reader, status);
    lemma_selection_succeeds(after, reader, status);
    tables.messages.lemma_filter_push(stored, wanted);
    tables.messages.filter(wanted).lemma_push_map_commute(with_sender(tables.users), stored);
}

/// A message sent with a title and a body to a recipient is the last one
/// that the recipient is shown afterwards: with that title and that body,
/// under the name of the sender who was authenticated, as new.
pub proof fn law_sent_message_reaches_its_recipient(
    tables: Tables,
    username: Seq<char>,
    request: NewMessageDTOView,
)
    requires
        tables.wf(),
        sending(tables, username, request) is Ok,
    ensures
        ({
            let before = overview(tables, request.recipient, None);
            let after = overview(after_sending(tables, username, request), request.recipient, None);
            &&& before is Ok
            &&& after is Ok
            &&& after.unwrap() == before.unwrap().push(
                MessageDTOView {
                    id: uuid_to_text(tables.next_id),
                    sender: username,
                    title: request.title,
                    message: request.body,
                    status: MessageStatus::New.label(),
                },
            )
        }),
{
    let sender = tables.identity_by_name(username).unwrap();
    let stored = outgoing(tables, username, request).unwrap().stored_as(tables.next_id);
    lemma_sending_appends(tables, username, request);
    lemma_listing_after_sending(tables, username, request, request.recipient, None);
    selection(tables, request.recipient, None).unwrap().lemma_push_map_commute(
        shown_pair(),
        (stored, sender),
    );
}

/// The tables after the requests were served in turn, each on behalf of
/// the sender it is paired with.
pub open spec fn after_sending_all(
    tables: Tables,
    requests: Seq<(Seq<char>, NewMessageDTOView)>,
) -> Tables
    decreases requests.len(),
{
    if requests.len() == 0 {
        tables
    } else {
        after_sending(
            after_sending_all(tables, requests.drop_last()),
            requests.last().0,
            requests.last().1,
        )
    }
}

/// Every one of the requests, served in turn, was accepted.
pub open spec fn all_sent(tables: Tables, requests: Seq<(Seq<char>, NewMessageDTOView)>) -> bool
    decreases requests.len(),
{
    requests.len() == 0 || (all_sent(tables, requests.drop_last()) && sending(
        after_sending_all(tables, requests.drop_last()),
        requests.last().0,
        requests.last().1,
    ) is Ok)
}

/// After any number of messages were sent to one recipient, the recipient
/// is shown what they were shown before, followed by one entry for each
/// message sent, in the order of sending, each of them new. A recipient who
/// was shown nothing before is shown exactly as many entries as messages
/// were sent.
pub proof fn law_every_sent_message_is_listed_as_new(
    tables: Tables,
    recipient: Seq<char>,
    requests: Seq<(Seq<char>, NewMessageDTOView)>,
)
    requires
        tables.wf(),
        tables.identity_by_name(recipient) is Ok,
        forall|i: int|
            0 <= i < requests.len() ==> (#[trigger] requests[i]).1.recipient == recipient,
        all_sent(tables, requests),
    ensures
        ({
            let after = after_sending_all(tables, requests);
            let before = overview(tables, recipient, None);
            let now = overview(after, recipient, None);
            &&& after.wf()
            &&& after.users == tables.users
            &&& after.online
            &&& before is Ok
            &&& now is Ok
            &&& now.unwrap().len() == before.unwrap().len() + requests.len()
            &&& forall|j: int|
                0 <= j < before.unwrap().len() ==> now.unwrap()[j] == before.unwrap()[j]
            &&& forall|i: int|
                0 <= i < requests.len() ==> {
                    let entry = #[trigger] now.unwrap()[before.unwrap().len() + i];
                    &&& entry.status == MessageStatus::New.label()
                    &&& entry.sender == requests[i].0
                    &&& entry.title == requests[i].1.title
                    &&& entry.message == requests[i].1.body
                }
        }),
    decreases requests.len(),
{
    if requests.len() == 0 {
        lemma_selection_succeeds(tables, recipient, None);
    } else {
        let earlier = requests.drop_last();
        let middle = after_sending_all(tables, earlier);
        law_every_sent_message_is_listed_as_new(tables, recipient, earlier);
        law_sent_message_reaches_its_recipient(middle, requests.last().0, requests.last().1);
        lemma_sending_appends(middle, requests.last().0, requests.last().1);
        let before = overview(tables, recipient, None).unwrap();
        let then = overview(middle, recipient, None).unwrap();
        let now = overview(after_sending_all(tables, requests), recipient, None).unwrap();
        assert forall|i: int| 0 <= i < requests.len() implies ({
            let entry = #[trigger] now[before.len() + i];
            &&& entry.status == MessageStatus::New.label()
            &&& entry.sender == requests[i].0
            &&& entry.title == requests[i].1.title
            &&& entry.message == requests[i].1.body
        }) by {
            if i < earlier.len() {
                assert(now[before.len() + i] == then[before.len() + i]);
                assert(earlier[i] == requests[i]);
            }
        }
    }
}

/// Acknowledging a message again succeeds again and changes nothing more:
/// after the first acknowledgement the message is received, and it stays
/// so.
pub proof fn law_acknowledgement_is_idempotent(
    tables: Tables,
    username: Seq<char>,
    text: Seq<char>,
)
    requires
        acknowledgement(tables, username, text) is Ok,
    ensures
        ({
            let once = after_acknowledgement(tables, username, text);
            let id = uuid_from_text(text).unwrap();
            &&& acknowledgement(once, username, text) is Ok
            &&& after_acknowledgement(once, username, text) == once
            &&& once.messages.len() == tables.messages.len()
            &&& exists|k: int|
                0 <= k < once.messages.len() && (#[trigger] once.messages[k]).id == id
            &&& forall|i: int|
                0 <= i < once.messages.len() && (#[trigger] once.messages[i]).id == id
                    ==> once.messages[i].status == MessageStatus::Received.label()
        }),
{
    let once = after_acknowledgement(tables, username, text);
    let id = uuid_from_text(text).unwrap();
    let label = MessageStatus::Received.label();
    let user = first_match(tables.users, named(username)).unwrap();
    let wanted = owned(user.id, id);
    lemma_first_match_is_row(tables.messages, wanted);
    let k = choose|k: int|
        is_first_match(tables.messages, wanted, k) && first_match(tables.messages, wanted) == Some(
            tables.messages[k],
        );
    assert(wanted(once.messages[k]));
    lemma_first_match_exists(once.messages, wanted, k);
    assert(once.messages[k].id == id);
    assert(once.messages.map_values(restatus(id, label)) =~= once.messages);
}

/// A message addressed to someone else cannot be told from one that does
/// not exist: the attempt to change the status of either, and so to
/// acknowledge either, is refused with one and the same error, and nothing
/// changes.
pub proof fn law_foreign_message_looks_absent(
    tables: Tables,
    username: Seq<char>,
    status: Seq<char>,
    k: int,
    absent: u128,
)
    requires
        tables.wf(),
        tables.identity_by_name(username) is Ok,
        0 <= k < tables.messages.len(),
        tables.messages[k].recipient_id != tables.identity_by_name(username).unwrap().id,
        forall|i: int|
            0 <= i < tables.messages.len() ==> (#[trigger] tables.messages[i]).id != absent,
    ensures
        status_change_of(tables, username, tables.messages[k].id, status) == Err::<
            (),
            StatusChangeError,
        >(StatusChangeError::OwnershipOrNotFound),
        status_change_of(tables, username, absent, status) == Err::<(), StatusChangeError>(
            StatusChangeError::OwnershipOrNotFound,
        ),
        forall|text: Seq<char>|
            uuid_from_text(text) == Some(tables.messages[k].id) || uuid_from_text(text) == Some(
                absent,
            ) ==> {
                &&& #[trigger] status_change(tables, username, text, status) == Err::<
                    (),
                    StatusChangeError,
                >(StatusChangeError::OwnershipOrNotFound)
                &&& after_status_change(tables, username, text, status) == tables
            },
        forall|text: Seq<char>|
            uuid_from_text(text) == Some(tables.messages[k].id) || uuid_from_text(text) == Some(
                absent,
            ) ==> {
                &&& #[trigger] acknowledgement(tables, username, text) == Err::<
                    (),
                    ProcessingMessageError,
                >(ProcessingMessageError::CannotModifyMesageStatus)
                &&& after_acknowledgement(tables, username, text) == tables
            },
{
    let user = tables.identity_by_name(username).unwrap().id;
    let theirs = owned(user, tables.messages[k].id);
    if first_match(tables.messages, theirs) is Some {
        lemma_first_match_is_row(tables.messages, theirs);
        let j = choose|j: int|
            is_first_match(tables.messages, theirs, j) && first_match(tables.messages, theirs)
                == Some(tables.messages[j]);
        if j < k {
            assert(tables.messages[j].id != tables.messages[k].id);
        }
        if k < j {
            assert(tables.messages[k].id != tables.messages[j].id);
        }
        assert(false);
    }
    let none = owned(user, absent);
    if first_match(tables.messages, none) is Some {
        lemma_first_match_is_row(tables.messages, none);
        assert(false);
    }
}

/// Every status is read back from its own label.
pub proof fn law_status_labels_are_read_back(status: MessageStatus)
    ensures
        MessageStatus::of_label(status.label()) == Some(status),
{
    reveal_strlit("New");
    reveal_strlit("Received");
    reveal_strlit("_Read");
    reveal_strlit("_Deleted");
    assert("New"@.len() == 3);
    assert("Received"@.len() == 8 && "Received"@[0] == 'R');
    assert("_Read"@.len() == 5);
    assert("_Deleted"@.len() == 8 && "_Deleted"@[0] == '_');
}

/// None of the messages addressed to the user with identifier `reader` is
/// received yet.
pub open spec fn none_received(tables: Tables, reader: u128) -> bool {
    forall|i: int|
        0 <= i < tables.messages.len() && (#[trigger] tables.messages[i]).recipient_id == reader
            ==> tables.messages[i].status != MessageStatus::Received.label()
}

/// Before anything was acknowledged, a user who asks for the received
/// messages is shown none.
pub proof fn law_nothing_is_received_before_acknowledgement(tables: Tables, username: Seq<char>)
    requires
        tables.wf(),
        tables.identity_by_name(username) is Ok,
        none_received(tables, tables.identity_by_name(username).unwrap().id),
    ensures
        selection(tables, username, Some(MessageStatus::Received.label())) == Ok::<
            Seq<(MessageRow, Identity)>,
            StoreError,
        >(Seq::empty()),
        filtered_overview(tables, username, MessageStatus::Received.label()) == Ok::<
            Seq<MessageDTOView>,
            ProcessingMessageError,
        >(Seq::empty()),
{
    let reader = tables.identity_by_name(username).unwrap().id;
    let label = MessageStatus::Received.label();
    law_status_labels_are_read_back(MessageStatus::Received);
    lemma_selection_succeeds(tables, username, Some(label));
    lemma_filter_none(tables.messages, selected(reader, Some(label)));
    assert(Seq::<MessageRow>::empty().map_values(with_sender(tables.users)) =~= Seq::<
        (MessageRow, Identity),
    >::empty());
    assert(Seq::<(MessageRow, Identity)>::empty().map_values(shown_pair()) =~= Seq::<
        MessageDTOView,
    >::empty());
}

/// After one message was acknowledged, with none received before, the user
/// who asks for the received messages is shown exactly that message, and
/// the listing of the new messages does not hold it.
pub proof fn law_acknowledged_message_is_the_one_received(
    tables: Tables,
    username: Seq<char>,
    text: Seq<char>,
)
    requires
        tables.wf(),
        none_received(tables, tables.identity_by_name(username).unwrap().id),
        acknowledgement(tables, username, text) is Ok,
    ensures
        ({
            let after = after_acknowledgement(tables, username, text);
            let reader = tables.identity_by_name(username).unwrap().id;
            let id = uuid_from_text(text).unwrap();
            let message = first_match(tables.messages, owned(reader, id)).unwrap();
            let received = MessageRow { status: MessageStatus::Received.label(), ..message };
            let sender = with_sender(tables.users)(message).1;
            let fresh = selection(after, username, Some(MessageStatus::New.label()));
            &&& message.id == id
            &&& message.recipient_id == reader
            &&& selection(after, username, Some(MessageStatus::Received.label())) == Ok::<
                Seq<(MessageRow, Identity)>,
                StoreError,
            >(seq![(received, sender)])
            &&& filtered_overview(after, username, MessageStatus::Received.label()) == Ok::<
                Seq<MessageDTOView>,
                ProcessingMessageError,
            >(seq![MessageDTO::describe(received, sender)])
            &&& fresh is Ok
            &&& forall|j: int|
                0 <= j < fresh.unwrap().len() ==> (#[trigger] fresh.unwrap()[j]).0.id != id
        }),
{
    let after = after_acknowledgement(tables, username, text);
    let reader = tables.identity_by_name(username).unwrap().id;
    let id = uuid_from_text(text).unwrap();
    let label = MessageStatus::Received.label();
    let new = MessageStatus::New.label();
    let theirs = owned(reader, id);
    lemma_first_match_is_row(tables.messages, theirs);
    let k = choose|k: int|
        is_first_match(tables.messages, theirs, k) && first_match(tables.messages, theirs) == Some(
            tables.messages[k],
        );
    let message = tables.messages[k];
    let received = MessageRow { status: label, ..message };
    law_status_labels_are_read_back(MessageStatus::Received);
    law_status_labels_are_read_back(MessageStatus::New);
    lemma_status_change_keeps_wf(tables, username, id, label);
    assert(after.messages[k] == received);

    // The received messages: the acknowledged one and no other.
    let wanted = selected(reader, Some(label));
    assert forall|i: int| 0 <= i < after.messages.len() && i != k implies !wanted(
        #[trigger] after.messages[i],
    ) by {
        if i < k {
            assert(tables.messages[i].id != tables.messages[k].id);
        } else {
            assert(tables.messages[k].id != tables.messages[i].id);
        }
        assert(after.messages[i] == tables.messages[i]);
    }
    lemma_filter_single(after.messages, wanted, k);
    lemma_selection_succeeds(after, username, Some(label));
    assert(seq![received].map_values(with_sender(tables.users)) =~= seq![
        with_sender(tables.users)(received),
    ]);
    assert(seq![with_sender(tables.users)(received)].map_values(shown_pair()) =~= seq![
        shown_pair()(with_sender(tables.users)(received)),
    ]);

    // The new messages: none of them is the acknowledged one.
    let unread = selected(reader, Some(new));
    lemma_selection_succeeds(after, username, Some(new));
    let found = after.messages.filter(unread);
    assert forall|j: int| 0 <= j < found.len() implies (#[trigger] found[j]).id != id by {
        after.messages.lemma_filter_pred(unread, j);
        assert(found.contains(found[j]));
        after.messages.lemma_filter_contains_rev(unread, found[j]);
        let i = choose|i: int| 0 <= i < after.messages.len() && after.messages[i] == found[j];
        assert(after.messages[i] == found[j]);
        if found[j].id == id {
            assert(tables.messages[i].id == id);
            assert(after.messages[i].status == label);
        }
    }
}

/// The status of a message changes in one way only: an acknowledgement
/// that succeeds is made by the recipient of the message, gives that
/// message the status `Received` and leaves everything else as it was,
/// the other fields of the message included.
pub proof fn law_only_the_recipient_marks_a_message_received(
    tables: Tables,
    username: Seq<char>,
    text: Seq<char>,
)
    requires
        tables.wf(),
        acknowledgement(tables, username, text) is Ok,
    ensures
        ({
            let after = after_acknowledgement(tables, username, text);
            let reader = tables.identity_by_name(username).unwrap().id;
            let id = uuid_from_text(text).unwrap();
            &&& after.users == tables.users
            &&& after.next_id == tables.next_id
            &&& after.online == tables.online
            &&& after.messages.len() == tables.messages.len()
            &&& forall|i: int|
                0 <= i < tables.messages.len() ==> #[trigger] after.messages[i] == if
                    tables.messages[i].id == id {
                    MessageRow { status: MessageStatus::Received.label(), ..tables.messages[i] }
                } else {
                    tables.messages[i]
                }
            &&& forall|i: int|
                0 <= i < tables.messages.len() && (#[trigger] tables.messages[i]).id == id
                    ==> tables.messages[i].recipient_id == reader
        }),
{
    let reader = tables.identity_by_name(username).unwrap().id;
    let id = uuid_from_text(text).unwrap();
    let theirs = owned(reader, id);
    lemma_first_match_is_row(tables.messages, theirs);
    let k = choose|k: int|
        is_first_match(tables.messages, theirs, k) && first_match(tables.messages, theirs) == Some(
            tables.messages[k],
        );
    assert forall|i: int|
        0 <= i < tables.messages.len() && (#[trigger] tables.messages[i]).id
            == id implies tables.messages[i].recipient_id == reader by {
        if i < k {
            assert(tables.messages[i].id != tables.messages[k].id);
        }
        if k < i {
            assert(tables.messages[k].id != tables.messages[i].id);
        }
    }
}

} // verus!
