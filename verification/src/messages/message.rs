//! The `messages` table: its rows and the queries over it.

use super::recipient::get_recipient_by_name;
use super::sender::select_sender;
use super::sender::Sender;
use crate::identifier::uuid_from_text;
use crate::identifier::Identifier;
use crate::schema::first_match;
use crate::schema::identified;
use crate::schema::lemma_first_match_at;
use crate::schema::lemma_first_match_none;
use crate::schema::message_rows;
use crate::schema::named;
use crate::schema::Database;
use crate::schema::Identity;
use crate::schema::StoreError;
use crate::schema::Tables;
use crate::schema::UserRow;
use crate::schema::STATUS_MAX_LENGTH;
use vstd::prelude::*;
use vstd::string::StrSliceExecFns;

verus! {

/// A stored message.
#[derive(Debug, PartialEq, Eq)]
pub struct Message {
    pub id: Identifier,
    pub title: String,
    pub body: String,
    pub status: String,
    pub sender_id: Identifier,
    pub recipient_id: Identifier,
}

/// A stored message as a mathematical value.
pub struct MessageRow {
    pub id: u128,
    pub title: Seq<char>,
    pub body: Seq<char>,
    pub status: Seq<char>,
    pub sender_id: u128,
    pub recipient_id: u128,
}

impl View for Message {
    type V = MessageRow;

    open spec fn view(&self) -> MessageRow {
        MessageRow {
            id: self.id.value,
            title: self.title@,
            body: self.body@,
            status: self.status@,
            sender_id: self.sender_id.value,
            recipient_id: self.recipient_id.value,
        }
    }
}

impl Clone for Message {
    fn clone(&self) -> (copy: Self)
        ensures
            copy == *self,
    {
        Message {
            id: self.id,
            title: self.title.clone(),
            body: self.body.clone(),
            status: self.status.clone(),
            sender_id: self.sender_id,
            recipient_id: self.recipient_id,
        }
    }
}

/// A message that is not stored yet: it has no identifier.
#[derive(Clone, Debug, PartialEq, Eq)]
pub struct NewMessage {
    pub title: String,
    pub body: String,
    pub status: String,
    pub sender_id: Identifier,
    pub recipient_id: Identifier,
}

/// A message to be stored, as a mathematical value.
pub struct NewMessageRow {
    pub title: Seq<char>,
    pub body: Seq<char>,
    pub status: Seq<char>,
    pub sender_id: u128,
    pub recipient_id: u128,
}

impl View for NewMessage {
    type V = NewMessageRow;

    open spec fn view(&self) -> NewMessageRow {
        NewMessageRow {
            title: self.title@,
            body: self.body@,
            status: self.status@,
            sender_id: self.sender_id.value,
            recipient_id: self.recipient_id.value,
        }
    }
}

impl NewMessageRow {
    /// The row that is stored for this message under the identifier `id`.
    pub open spec fn stored_as(self, id: u128) -> MessageRow {
        MessageRow {
            id,
            title: self.title,
            body: self.body,
            status: self.status,
            sender_id: self.sender_id,
            recipient_id: self.recipient_id,
        }
    }
}

/// The messages addressed to `recipient`, restricted to those with the given
/// status where one is given.
pub open spec fn selected(recipient: u128, status: Option<Seq<char>>) -> spec_fn(
    MessageRow,
) -> bool {
    |m: MessageRow|
        m.recipient_id == recipient && match status {
            Some(wanted) => m.status == wanted,
            None => true,
        }
}

/// The messages with identifier `id` that are addressed to `recipient`.
pub open spec fn owned(recipient: u128, id: u128) -> spec_fn(MessageRow) -> bool {
    |m: MessageRow| m.recipient_id == recipient && m.id == id
}

/// A message together with the identity of its sender. It is meant for
/// messages whose sender is in `users`.
pub open spec fn with_sender(users: Seq<UserRow>) -> spec_fn(MessageRow) -> (
    MessageRow,
    Identity,
) {
    |m: MessageRow| (m, first_match(users, identified(m.sender_id)).unwrap().identity())
}

/// Every message of `found` was sent by a user in `users`.
pub open spec fn senders_known(users: Seq<UserRow>, found: Seq<MessageRow>) -> bool {
    forall|i: int|
        0 <= i < found.len() ==> first_match(users, identified((#[trigger] found[i]).sender_id))
            is Some
}

/// Each message of `found` with its sender, in the order of `found`; not
/// found where one of the senders is unknown.
pub open spec fn listing(users: Seq<UserRow>, found: Seq<MessageRow>) -> Result<
    Seq<(MessageRow, Identity)>,
    StoreError,
> {
    if senders_known(users, found) {
        Ok(found.map_values(with_sender(users)))
    } else {
        Err(StoreError::NotFound)
    }
}

/// What a user called `username` is shown: the messages addressed to them in
/// table order, each with its sender, restricted by status where one is
/// given.
pub open spec fn selection(
    tables: Tables,
    username: Seq<char>,
    status: Option<Seq<char>>,
) -> Result<Seq<(MessageRow, Identity)>, StoreError> {
    match tables.identity_by_name(username) {
        Ok(recipient) => listing(
            tables.users,
            tables.messages.filter(selected(recipient.id, status)),
        ),
        Err(error) => Err(error),
    }
}

/// The pairs of rows that a vector of messages with their senders stands for.
pub open spec fn pair_rows(pairs: Seq<(Message, Sender)>) -> Seq<(MessageRow, Identity)> {
    pairs.map_values(|p: (Message, Sender)| (p.0@, p.1@))
}

/// A listing with its messages and senders replaced by their views.
pub open spec fn listed(result: Result<Vec<(Message, Sender)>, StoreError>) -> Result<
    Seq<(MessageRow, Identity)>,
    StoreError,
> {
    match result {
        Ok(pairs) => Ok(pair_rows(pairs@)),
        Err(error) => Err(error),
    }
}

/// Copies of the messages addressed to `recipient`, in table order,
/// restricted by status where one is given.
fn messages_of(database: &Database, recipient: Identifier, status: &Option<String>) -> (found: Vec<
    Message,
>)
    ensures
        message_rows(found@) == database@.messages.filter(
            selected(recipient.value, crate::schema::optional_text(*status)),
        ),
{
    let ghost wanted = selected(recipient.value, crate::schema::optional_text(*status));
    let ghost rows = database@.messages;
    let mut found: Vec<Message> = Vec::new();
    let mut i: usize = 0;
    assert(rows.take(0).filter(wanted) == Seq::<MessageRow>::empty()) by {
        reveal(Seq::filter);
    }
    assert(message_rows(found@) == Seq::<MessageRow>::empty());
    while i < database.messages.len()
        invariant
            i <= database.messages.len(),
            rows == database@.messages,
            wanted == selected(recipient.value, crate::schema::optional_text(*status)),
            message_rows(found@) == rows.take(i as int).filter(wanted),
        decreases database.messages.len() - i,
    {
        let message = &database.messages[i];
        let matches = message.recipient_id == recipient && match status {
            Some(label) => message.status == *label,
            None => true,
        };
        proof {
            rows.lemma_take_succ_push(i as int);
            rows.take(i as int).lemma_filter_push(rows[i as int], wanted);
            assert(rows[i as int] == message@);
            assert(matches == wanted(rows[i as int]));
        }
        if matches {
            let ghost before = found@;
            found.push(message.clone());
            proof {
                before.lemma_push_map_commute(|m: Message| m@, *message);
            }
        }
        i += 1;
    }
    assert(rows.take(i as int) == rows);
    found
}

/// Pairs each message with its sender, looked up by identifier; the first
/// sender that the store does not know ends the listing with `NotFound`.
fn attach_senders(database: &Database, found: Vec<Message>) -> (result: Result<
    Vec<(Message, Sender)>,
    StoreError,
>)
    requires
        database.online,
    ensures
        listed(result) == listing(database@.users, message_rows(found@)),
{
    let ghost users = database@.users;
    let ghost rows = message_rows(found@);
    let mut pairs: Vec<(Message, Sender)> = Vec::new();
    let mut i: usize = 0;
    assert(pair_rows(pairs@) == rows.take(0).map_values(with_sender(users)));
    while i < found.len()
        invariant
            i <= found.len(),
            database.online,
            users == database@.users,
            rows == message_rows(found@),
            senders_known(users, rows.take(i as int)),
            pair_rows(pairs@) == rows.take(i as int).map_values(with_sender(users)),
        decreases found.len() - i,
    {
        let message = found[i].clone();
        assert(message@ == rows[i as int]);
        match select_sender(message.sender_id, database) {
            Ok(sender) => {
                let ghost before = pairs@;
                pairs.push((message, sender));
                proof {
                    before.lemma_push_map_commute(
                        |p: (Message, Sender)| (p.0@, p.1@),
                        (message, sender),
                    );
                    rows.lemma_map_take_succ(with_sender(users), i as int);
                    assert forall|j: int| 0 <= j < rows.take(i + 1).len() implies first_match(
                        users,
                        identified((#[trigger] rows.take(i + 1)[j]).sender_id),
                    ) is Some by {
                        if j < i {
                            assert(rows.take(i + 1)[j] == rows.take(i as int)[j]);
                        }
                    }
                }
            },
            Err(error) => {
                assert(!senders_known(users, rows));
                return Err(error);
            },
        }
        i += 1;
    }
    assert(rows.take(i as int) == rows);
    Ok(pairs)
}

/// Lists the messages addressed to the user called `username`, each with
/// the identity of its sender, in table order. The listing fails with
/// `Unavailable` where the store is offline and with `NotFound` where the
/// user, or the sender of one of the messages, is not in the `users` table.
pub fn select_all_messages(database: &Database, username: &str) -> (result: Result<
    Vec<(Message, Sender)>,
    StoreError,
>)
    ensures
        listed(result) == selection(database@, username@, None),
{
    match get_recipient_by_name(username, database) {
        Ok(recipient) => {
            let found = messages_of(database, recipient.id, &None);
            attach_senders(database, found)
        },
        Err(error) => Err(error),
    }
}

/// Lists the messages addressed to the user called `username` whose status
/// is exactly `status`; otherwise as [`select_all_messages`].
pub fn select_all_messages_with_status(
    database: &Database,
    username: &str,
    status: &str,
) -> (result: Result<Vec<(Message, Sender)>, StoreError>)
    ensures
        listed(result) == selection(database@, username@, Some(status@)),
{
    match get_recipient_by_name(username, database) {
        Ok(recipient) => {
            let found = messages_of(database, recipient.id, &Some(status.to_owned()));
            attach_senders(database, found)
        },
        Err(error) => Err(error),
    }
}

/// Why the status of a message was not changed.
#[derive(Clone, Copy, Debug, PartialEq, Eq, Structural)]
pub enum StatusChangeError {
    /// The text given for the message is not an identifier.
    InvalidIdentifier,
    /// No message with that identifier is addressed to the acting user:
    /// there is none at all, or it belongs to someone else.
    OwnershipOrNotFound,
    /// The store is offline or refuses the new status.
    CannotModifyStatus,
}

/// A message with its status replaced, where its identifier is `id`.
pub open spec fn restatus(id: u128, status: Seq<char>) -> spec_fn(MessageRow) -> MessageRow {
    |m: MessageRow|
        if m.id == id {
            MessageRow { status, ..m }
        } else {
            m
        }
}

/// The outcome of a change of status asked for by the user called
/// `username`, for the message whose identifier is printed as `text`.
pub open spec fn status_change(
    tables: Tables,
    username: Seq<char>,
    text: Seq<char>,
    status: Seq<char>,
) -> Result<(), StatusChangeError> {
    match uuid_from_text(text) {
        None => Err(StatusChangeError::InvalidIdentifier),
        Some(id) => status_change_of(tables, username, id, status),
    }
}

/// The outcome of a change of status asked for by the user called
/// `username`, for the message with identifier `id`.
pub open spec fn status_change_of(
    tables: Tables,
    username: Seq<char>,
    id: u128,
    status: Seq<char>,
) -> Result<(), StatusChangeError> {
    if !tables.online {
        Err(StatusChangeError::CannotModifyStatus)
    } else {
        match first_match(tables.users, named(username)) {
            None => Err(StatusChangeError::OwnershipOrNotFound),
            Some(user) => if first_match(tables.messages, owned(user.id, id)) is None {
                Err(StatusChangeError::OwnershipOrNotFound)
            } else if status.len() > STATUS_MAX_LENGTH {
                Err(StatusChangeError::CannotModifyStatus)
            } else {
                Ok(())
            },
        }
    }
}

/// The tables after a change of status for the message with identifier
/// `id`: on success every message with that identifier carries the new
/// status, and nothing else differs; on failure nothing differs.
pub open spec fn after_status_change_of(
    tables: Tables,
    username: Seq<char>,
    id: u128,
    status: Seq<char>,
) -> Tables {
    if status_change_of(tables, username, id, status) is Ok {
        Tables { messages: tables.messages.map_values(restatus(id, status)), ..tables }
    } else {
        tables
    }
}

/// The tables after a change of status for the message whose identifier is
/// printed as `text`.
pub open spec fn after_status_change(
    tables: Tables,
    username: Seq<char>,
    text: Seq<char>,
    status: Seq<char>,
) -> Tables {
    match uuid_from_text(text) {
        Some(id) => after_status_change_of(tables, username, id, status),
        None => tables,
    }
}

/// A change of status keeps well-formed tables well-formed.
pub proof fn lemma_status_change_keeps_wf(
    tables: Tables,
    username: Seq<char>,
    id: u128,
    status: Seq<char>,
)
    requires
        tables.wf(),
    ensures
        after_status_change_of(tables, username, id, status).wf(),
{
    let after = after_status_change_of(tables, username, id, status);
    if status_change_of(tables, username, id, status) is Ok {
        assert forall|i: int| 0 <= i < after.messages.len() implies ({
            let m = #[trigger] after.messages[i];
            &&& m.id < after.next_id
            &&& m.status.len() <= STATUS_MAX_LENGTH
            &&& first_match(after.users, identified(m.sender_id)) is Some
            &&& first_match(after.users, identified(m.recipient_id)) is Some
        }) by {
            let m = tables.messages[i];
            assert(m.id < tables.next_id);
        }
        assert forall|i: int, j: int| 0 <= i < j < after.messages.len() implies (
        #[trigger] after.messages[i]).id != (#[trigger] after.messages[j]).id by {
            assert(tables.messages[i].id != tables.messages[j].id);
        }
    }
}

/// Whether a message with identifier `id` is addressed to `recipient`.
fn owns_message(database: &Database, recipient: Identifier, id: Identifier) -> (found: bool)
    ensures
        found == (first_match(database@.messages, owned(recipient.value, id.value)) is Some),
{
    let ghost wanted = owned(recipient.value, id.value);
    let mut i: usize = 0;
    while i < database.messages.len()
        invariant
            i <= database.messages.len(),
            wanted == owned(recipient.value, id.value),
            forall|j: int| 0 <= j < i ==> !wanted(#[trigger] database@.messages[j]),
        decreases database.messages.len() - i,
    {
        let message = &database.messages[i];
        if message.recipient_id == recipient && message.id == id {
            proof {
                lemma_first_match_at(database@.messages, wanted, i as int);
            }
            return true;
        }
        i += 1;
    }
    proof {
        lemma_first_match_none(database@.messages, wanted);
    }
    false
}

/// Gives every message with identifier `id` the status `status`.
fn set_status(database: &mut Database, id: Identifier, status: &String)
    ensures
        final(database)@ == (Tables {
            messages: old(database)@.messages.map_values(restatus(id.value, status@)),
            ..old(database)@
        }),
{
    let ghost rows = database@.messages;
    let ghost change = restatus(id.value, status@);
    let mut updated: Vec<Message> = Vec::new();
    let mut i: usize = 0;
    assert(message_rows(updated@) == rows.take(0).map_values(change));
    while i < database.messages.len()
        invariant
            i <= database.messages.len(),
            rows == database@.messages,
            *database == *old(database),
            change == restatus(id.value, status@),
            message_rows(updated@) == rows.take(i as int).map_values(change),
        decreases database.messages.len() - i,
    {
        let message = &database.messages[i];
        let next = if message.id == id {
            Message {
                id: message.id,
                title: message.title.clone(),
                body: message.body.clone(),
                status: status.clone(),
                sender_id: message.sender_id,
                recipient_id: message.recipient_id,
            }
        } else {
            message.clone()
        };
        proof {
            assert(rows[i as int] == message@);
            assert(next@ == change(rows[i as int]));
            rows.lemma_map_take_succ(change, i as int);
            updated@.lemma_push_map_commute(|m: Message| m@, next);
        }
        updated.push(next);
        i += 1;
    }
    assert(rows.take(i as int) == rows);
    database.messages = updated;
}

/// Changes the status of the message with identifier `id`, on behalf of
/// the user called `username`.
///
/// The message must be addressed to that user: one that does not exist and
/// one that belongs to someone else are refused alike. The previous status
/// is not looked at, so the change can be repeated.
pub fn change_status_of_message(
    database: &mut Database,
    username: &str,
    id: Identifier,
    status: &str,
) -> (result: Result<(), StatusChangeError>)
    ensures
        result == status_change_of(old(database)@, username@, id.value, status@),
        final(database)@ == after_status_change_of(old(database)@, username@, id.value, status@),
        old(database)@.wf() ==> final(database)@.wf(),
{
    proof {
        if database@.wf() {
            lemma_status_change_keeps_wf(database@, username@, id.value, status@);
        }
    }
    if !database.online {
        return Err(StatusChangeError::CannotModifyStatus);
    }
    let name = username.to_owned();
    let user = match database.position_by_name(&name) {
        Some(i) => database.users[i].id,
        None => {
            return Err(StatusChangeError::OwnershipOrNotFound);
        },
    };
    if !owns_message(database, user, id) {
        return Err(StatusChangeError::OwnershipOrNotFound);
    }
    if status.unicode_len() > STATUS_MAX_LENGTH {
        return Err(StatusChangeError::CannotModifyStatus);
    }
    set_status(database, id, &status.to_owned());
    Ok(())
}

/// Changes the status of the message whose identifier is printed as
/// `message_uuid`, on behalf of the user called `username`.
///
/// The text is read before the store is touched; a text that is no
/// identifier is refused. Otherwise as [`change_status_of_message`].
pub fn change_message_status(
    database: &mut Database,
    username: &str,
    message_uuid: &str,
    status: &str,
) -> (result: Result<(), StatusChangeError>)
    ensures
        result == status_change(old(database)@, username@, message_uuid@, status@),
        final(database)@ == after_status_change(
            old(database)@,
            username@,
            message_uuid@,
            status@,
        ),
        old(database)@.wf() ==> final(database)@.wf(),
{
    match Identifier::parse_str(message_uuid) {
        Some(id) => change_status_of_message(database, username, id, status),
        None => Err(StatusChangeError::InvalidIdentifier),
    }
}

/// The outcome of an insertion: one row written, or the reason why the
/// store refuses. It refuses a status label that does not fit, a sender or
/// recipient that is not a user, and any message once the identifiers have
/// run out.
pub open spec fn insertion(tables: Tables, message: NewMessageRow) -> Result<usize, StoreError> {
    if !tables.online {
        Err(StoreError::Unavailable)
    } else if message.status.len() > STATUS_MAX_LENGTH || first_match(
        tables.users,
        identified(message.sender_id),
    ) is None || first_match(tables.users, identified(message.recipient_id)) is None
        || tables.next_id == u128::MAX {
        Err(StoreError::Rejected)
    } else {
        Ok(1)
    }
}

/// The tables after an insertion: on success the message stands at the end
/// of the table under the identifier that was next; on failure nothing
/// differs.
pub open spec fn after_insertion(tables: Tables, message: NewMessageRow) -> Tables {
    if insertion(tables, message) is Ok {
        Tables {
            messages: tables.messages.push(message.stored_as(tables.next_id)),
            next_id: (tables.next_id + 1) as u128,
            ..tables
        }
    } else {
        tables
    }
}

/// An insertion keeps well-formed tables well-formed.
pub proof fn lemma_insertion_keeps_wf(tables: Tables, message: NewMessageRow)
    requires
        tables.wf(),
    ensures
        after_insertion(tables, message).wf(),
{
    let after = after_insertion(tables, message);
    if insertion(tables, message) is Ok {
        assert forall|i: int| 0 <= i < after.messages.len() implies ({
            let m = #[trigger] after.messages[i];
            &&& m.id < after.next_id
            &&& m.status.len() <= STATUS_MAX_LENGTH
            &&& first_match(after.users, identified(m.sender_id)) is Some
            &&& first_match(after.users, identified(m.recipient_id)) is Some
        }) by {
            if i < tables.messages.len() {
                assert(after.messages[i] == tables.messages[i]);
            }
        }
        assert forall|i: int, j: int| 0 <= i < j < after.messages.len() implies (
        #[trigger] after.messages[i]).id != (#[trigger] after.messages[j]).id by {
            assert(after.messages[i] == tables.messages[i]);
            if j < tables.messages.len() {
                assert(after.messages[j] == tables.messages[j]);
            }
        }
    }
}

/// Stores a new message under a fresh identifier and returns the number of
/// rows written, which is one.
pub fn create_new_message(message: NewMessage, database: &mut Database) -> (result: Result<
    usize,
    StoreError,
>)
    ensures
        result == insertion(old(database)@, message@),
        final(database)@ == after_insertion(old(database)@, message@),
        old(database)@.wf() ==> final(database)@.wf(),
{
    proof {
        if database@.wf() {
            lemma_insertion_keeps_wf(database@, message@);
        }
    }
    if !database.online {
        return Err(StoreError::Unavailable);
    }
    if message.status.as_str().unicode_len() > STATUS_MAX_LENGTH {
        return Err(StoreError::Rejected);
    }
    if database.position_by_id(message.sender_id).is_none() {
        return Err(StoreError::Rejected);
    }
    if database.position_by_id(message.recipient_id).is_none() {
        return Err(StoreError::Rejected);
    }
    if database.next_id == u128::MAX {
        return Err(StoreError::Rejected);
    }
    let stored = Message {
        id: Identifier { value: database.next_id },
        title: message.title,
        body: message.body,
        status: message.status,
        sender_id: message.sender_id,
        recipient_id: message.recipient_id,
    };
    proof {
        database.messages@.lemma_push_map_commute(|m: Message| m@, stored);
    }
    database.messages.push(stored);
    database.next_id = database.next_id + 1;
    Ok(1)
}

} // verus!
