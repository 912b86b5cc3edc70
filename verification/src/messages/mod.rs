//! The message workflow: listing, sending and acknowledging messages on
//! behalf of an authenticated user.

pub mod message;
pub mod recipient;
pub mod sender;

use self::message::after_insertion;
use self::message::after_status_change;
use self::message::change_message_status;
use self::message::create_new_message;
use self::message::insertion;
use self::message::select_all_messages;
use self::message::select_all_messages_with_status;
use self::message::selection;
use self::message::status_change;
use self::message::Message;
use self::message::MessageRow;
use self::message::NewMessage;
use self::message::NewMessageRow;
use self::message::StatusChangeError;
use self::recipient::get_recipient_by_name;
use self::recipient::Recipient;
use self::sender::get_sender_by_name;
use self::sender::Sender;
use crate::authentication::Credentials;
use crate::identifier::uuid_from_text;
use crate::identifier::uuid_to_text;
use crate::response::ErrorResponse;
use crate::response::BAD_REQUEST;
use crate::response::INTERNAL_SERVER_ERROR;
use crate::schema::Database;
use crate::schema::Identity;
use crate::schema::StoreError;
use crate::schema::Tables;
use vstd::prelude::*;

verus! {

/// The status of a message. Only `New` and `Received` are ever given to a
/// message; the other two are reserved.
#[derive(Clone, Copy, Debug, PartialEq, Eq, Structural)]
pub enum MessageStatus {
    New,
    Received,
    _Read,
    _Deleted,
}

impl MessageStatus {
    /// The label under which the status is stored and shown.
    pub open spec fn label(self) -> Seq<char> {
        match self {
            MessageStatus::New => "New"@,
            MessageStatus::Received => "Received"@,
            MessageStatus::_Read => "_Read"@,
            MessageStatus::_Deleted => "_Deleted"@,
        }
    }

    /// The status that a label stands for, if it is the label of one.
    pub open spec fn of_label(text: Seq<char>) -> Option<MessageStatus> {
        if text == "New"@ {
            Some(MessageStatus::New)
        } else if text == "Received"@ {
            Some(MessageStatus::Received)
        } else if text == "_Read"@ {
            Some(MessageStatus::_Read)
        } else if text == "_Deleted"@ {
            Some(MessageStatus::_Deleted)
        } else {
            None
        }
    }

    pub fn to_text(&self) -> (text: String)
        ensures
            text@ == self.label(),
    {
        match self {
            MessageStatus::New => "New".to_owned(),
            MessageStatus::Received => "Received".to_owned(),
            MessageStatus::_Read => "_Read".to_owned(),
            MessageStatus::_Deleted => "_Deleted".to_owned(),
        }
    }

    /// Reads a status from its label. Labels are matched exactly, letter
    /// case included; any other text is not a status.
    pub fn from_label(text: &str) -> (status: Option<MessageStatus>)
        ensures
            status == Self::of_label(text@),
    {
        let given = text.to_owned();
        if given == "New".to_owned() {
            Some(MessageStatus::New)
        } else if given == "Received".to_owned() {
            Some(MessageStatus::Received)
        } else if given == "_Read".to_owned() {
            Some(MessageStatus::_Read)
        } else if given == "_Deleted".to_owned() {
            Some(MessageStatus::_Deleted)
        } else {
            None
        }
    }
}

/// A message as it is shown to its recipient.
#[derive(Clone, Debug, PartialEq, Eq)]
pub struct MessageDTO {
    pub id: String,
    pub sender: String,
    pub title: String,
    pub message: String,
    pub status: String,
}

/// A shown message as a mathematical value.
pub struct MessageDTOView {
    pub id: Seq<char>,
    pub sender: Seq<char>,
    pub title: Seq<char>,
    pub message: Seq<char>,
    pub status: Seq<char>,
}

impl View for MessageDTO {
    type V = MessageDTOView;

    open spec fn view(&self) -> MessageDTOView {
        MessageDTOView {
            id: self.id@,
            sender: self.sender@,
            title: self.title@,
            message: self.message@,
            status: self.status@,
        }
    }
}

impl MessageDTO {
    /// How a stored message is shown: its identifier in printed form, the
    /// name of its sender, and its title, body and status as they are stored.
    pub open spec fn describe(message: MessageRow, sender: Identity) -> MessageDTOView {
        MessageDTOView {
            id: uuid_to_text(message.id),
            sender: sender.name,
            title: message.title,
            message: message.body,
            status: message.status,
        }
    }

    pub fn from(message: Message, sender: Sender) -> (shown: MessageDTO)
        ensures
            shown@ == Self::describe(message@, sender@),
            uuid_from_text(shown.id@) == Some(message.id.value),
    {
        MessageDTO {
            id: message.id.to_text(),
            sender: sender.name,
            title: message.title,
            message: message.body,
            status: message.status,
        }
    }
}

/// A request to send a message: title, body and the name of the recipient.
#[derive(Clone, Debug, PartialEq, Eq)]
pub struct NewMessageDTO {
    pub title: String,
    pub body: String,
    pub recipient: String,
}

/// A request to send a message as a mathematical value.
pub struct NewMessageDTOView {
    pub title: Seq<char>,
    pub body: Seq<char>,
    pub recipient: Seq<char>,
}

impl View for NewMessageDTO {
    type V = NewMessageDTOView;

    open spec fn view(&self) -> NewMessageDTOView {
        NewMessageDTOView { title: self.title@, body: self.body@, recipient: self.recipient@ }
    }
}

/// Why a request of the message workflow was not served.
#[derive(Clone, Copy, Debug, PartialEq, Eq, Structural)]
pub enum ProcessingMessageError {
    /// No user has the name given for the recipient.
    RecipientNotFound,
    /// The store did not take the message.
    CannotSaveMessage,
    /// The status of the message was not changed.
    CannotModifyMesageStatus,
    /// The text given for the status is not the label of a status.
    UnrecognizedStatus,
    /// The operation did not complete.
    InternalServerError,
}

impl ProcessingMessageError {
    /// The status code the error is answered with.
    pub open spec fn status(self) -> u16 {
        match self {
            ProcessingMessageError::RecipientNotFound => BAD_REQUEST,
            ProcessingMessageError::CannotSaveMessage => INTERNAL_SERVER_ERROR,
            ProcessingMessageError::CannotModifyMesageStatus => BAD_REQUEST,
            ProcessingMessageError::UnrecognizedStatus => BAD_REQUEST,
            ProcessingMessageError::InternalServerError => INTERNAL_SERVER_ERROR,
        }
    }

    /// The sentence the error is shown as.
    pub open spec fn text(self) -> Seq<char> {
        match self {
            ProcessingMessageError::RecipientNotFound => "Message recipient not found"@,
            ProcessingMessageError::CannotSaveMessage => "Error while saving message"@,
            ProcessingMessageError::CannotModifyMesageStatus => {
                "Error while modifying message status"@
            },
            ProcessingMessageError::UnrecognizedStatus => "Unrecognized message status"@,
            ProcessingMessageError::InternalServerError => "Internal server error"@,
        }
    }

    pub fn status_code(&self) -> (code: u16)
        ensures
            code == self.status(),
    {
        match self {
            ProcessingMessageError::RecipientNotFound => BAD_REQUEST,
            ProcessingMessageError::CannotSaveMessage => INTERNAL_SERVER_ERROR,
            ProcessingMessageError::CannotModifyMesageStatus => BAD_REQUEST,
            ProcessingMessageError::UnrecognizedStatus => BAD_REQUEST,
            ProcessingMessageError::InternalServerError => INTERNAL_SERVER_ERROR,
        }
    }

    pub fn to_text(&self) -> (text: String)
        ensures
            text@ == self.text(),
    {
        match self {
            ProcessingMessageError::RecipientNotFound => "Message recipient not found".to_owned(),
            ProcessingMessageError::CannotSaveMessage => "Error while saving message".to_owned(),
            ProcessingMessageError::CannotModifyMesageStatus => {
                "Error while modifying message status".to_owned()
            },
            ProcessingMessageError::UnrecognizedStatus => "Unrecognized message status".to_owned(),
            ProcessingMessageError::InternalServerError => "Internal server error".to_owned(),
        }
    }

    /// The answer sent for the error: its status code, with its sentence as
    /// the body.
    pub fn error_response(&self) -> (response: ErrorResponse)
        ensures
            response.status == self.status(),
            response.body@ == self.text(),
    {
        ErrorResponse { status: self.status_code(), body: self.to_text() }
    }
}

/// Shows a message with its sender.
pub open spec fn shown_pair() -> spec_fn((MessageRow, Identity)) -> MessageDTOView {
    |p: (MessageRow, Identity)| MessageDTO::describe(p.0, p.1)
}

/// What the user called `username` gets to see: the messages addressed to
/// them, restricted by status where one is given. Whatever keeps the store
/// from answering is an internal error.
pub open spec fn overview(tables: Tables, username: Seq<char>, status: Option<Seq<char>>) -> Result<
    Seq<MessageDTOView>,
    ProcessingMessageError,
> {
    match selection(tables, username, status) {
        Ok(pairs) => Ok(pairs.map_values(shown_pair())),
        Err(_) => Err(ProcessingMessageError::InternalServerError),
    }
}

/// What the user called `username` gets to see when asking for the messages
/// whose status is labelled `label`.
pub open spec fn filtered_overview(tables: Tables, username: Seq<char>, label: Seq<char>) -> Result<
    Seq<MessageDTOView>,
    ProcessingMessageError,
> {
    match MessageStatus::of_label(label) {
        Some(status) => overview(tables, username, Some(status.label())),
        None => Err(ProcessingMessageError::UnrecognizedStatus),
    }
}

/// The views of shown messages.
pub open spec fn shown_rows(messages: Seq<MessageDTO>) -> Seq<MessageDTOView> {
    messages.map_values(|m: MessageDTO| m@)
}

/// An overview with its messages replaced by their views.
pub open spec fn shown(result: Result<Vec<MessageDTO>, ProcessingMessageError>) -> Result<
    Seq<MessageDTOView>,
    ProcessingMessageError,
> {
    match result {
        Ok(messages) => Ok(shown_rows(messages@)),
        Err(error) => Err(error),
    }
}

/// Turns a listing of the store into what the user is shown.
pub fn present(listing: Result<Vec<(Message, Sender)>, StoreError>) -> (result: Result<
    Vec<MessageDTO>,
    ProcessingMessageError,
>)
    ensures
        shown(result) == match self::message::listed(listing) {
            Ok(pairs) => Ok::<Seq<MessageDTOView>, ProcessingMessageError>(
                pairs.map_values(shown_pair()),
            ),
            Err(_) => Err(ProcessingMessageError::InternalServerError),
        },
{
    let pairs = match listing {
        Ok(pairs) => pairs,
        Err(_) => {
            return Err(ProcessingMessageError::InternalServerError);
        },
    };
    let ghost all = pairs@;
    let ghost rows = self::message::pair_rows(pairs@);
    let mut messages: Vec<MessageDTO> = Vec::new();
    assert(shown_rows(messages@) == rows.take(0).map_values(shown_pair()));
    for pair in it: pairs.into_iter()
        invariant
            it.seq() == all,
            rows == self::message::pair_rows(all),
            shown_rows(messages@) == rows.take(it.index() as int).map_values(shown_pair()),
    {
        let ghost before = messages@;
        let ghost i = it.index() as int;
        let (message, sender) = pair;
        let dto = MessageDTO::from(message, sender);
        proof {
            assert(dto@ == shown_pair()(rows[i]));
            rows.lemma_map_take_succ(shown_pair(), i);
            before.lemma_push_map_commute(|m: MessageDTO| m@, dto);
        }
        messages.push(dto);
    }
    assert(rows.take(rows.len() as int) == rows);
    Ok(messages)
}

/// Lists every message addressed to the authenticated user.
pub fn get_all_messages(database: &Database, auth: &Credentials) -> (result: Result<
    Vec<MessageDTO>,
    ProcessingMessageError,
>)
    ensures
        shown(result) == overview(database@, auth.user_id@, None),
{
    present(select_all_messages(database, auth.user_id.as_str()))
}

/// Lists the messages addressed to the authenticated user whose status is
/// the one labelled `status`. A text that is not the label of a status is
/// refused before the store is asked.
pub fn get_all_messages_with_status(
    status: &str,
    database: &Database,
    auth: &Credentials,
) -> (result: Result<Vec<MessageDTO>, ProcessingMessageError>)
    ensures
        shown(result) == filtered_overview(database@, auth.user_id@, status@),
{
    let status = match MessageStatus::from_label(status) {
        Some(status) => status,
        None => {
            return Err(ProcessingMessageError::UnrecognizedStatus);
        },
    };
    present(
        select_all_messages_with_status(
            database,
            auth.user_id.as_str(),
            status.to_text().as_str(),
        ),
    )
}

/// The outcome of acknowledging the message whose identifier is printed as
/// `text`, for the user called `username`: whatever keeps the status from
/// changing is reported as one and the same error.
pub open spec fn acknowledgement(tables: Tables, username: Seq<char>, text: Seq<char>) -> Result<
    (),
    ProcessingMessageError,
> {
    match status_change(tables, username, text, MessageStatus::Received.label()) {
        Ok(_) => Ok(()),
        Err(_) => Err(ProcessingMessageError::CannotModifyMesageStatus),
    }
}

/// The tables after acknowledging the message whose identifier is printed
/// as `text`, for the user called `username`.
pub open spec fn after_acknowledgement(
    tables: Tables,
    username: Seq<char>,
    text: Seq<char>,
) -> Tables {
    after_status_change(tables, username, text, MessageStatus::Received.label())
}

/// What an attempt to change the status of a message means for the request
/// that asked for it.
pub fn acknowledged(change: Result<(), StatusChangeError>) -> (result: Result<
    (),
    ProcessingMessageError,
>)
    ensures
        result == match change {
            Ok(_) => Ok::<(), ProcessingMessageError>(()),
            Err(_) => Err(ProcessingMessageError::CannotModifyMesageStatus),
        },
{
    match change {
        Ok(_) => Ok(()),
        Err(_) => Err(ProcessingMessageError::CannotModifyMesageStatus),
    }
}

/// Acknowledges the receipt of a message on behalf of the authenticated
/// user: the message gets the status `Received`, whatever its status was.
pub fn ack_message_receive(
    message_id: &str,
    database: &mut Database,
    auth: &Credentials,
) -> (result: Result<(), ProcessingMessageError>)
    ensures
        result == acknowledgement(old(database)@, auth.user_id@, message_id@),
        final(database)@ == after_acknowledgement(old(database)@, auth.user_id@, message_id@),
        old(database)@.wf() ==> final(database)@.wf(),
{
    let status = MessageStatus::Received.to_text();
    acknowledged(
        change_message_status(database, auth.user_id.as_str(), message_id, status.as_str()),
    )
}

/// The message that is stored for a request: it is new, from `sender`, to
/// `recipient`.
pub open spec fn composed(
    request: NewMessageDTOView,
    sender: u128,
    recipient: u128,
) -> NewMessageRow {
    NewMessageRow {
        title: request.title,
        body: request.body,
        status: MessageStatus::New.label(),
        sender_id: sender,
        recipient_id: recipient,
    }
}

/// The message that a request of the user called `username` would store,
/// if both the sender and the recipient are found.
pub open spec fn outgoing(
    tables: Tables,
    username: Seq<char>,
    request: NewMessageDTOView,
) -> Option<NewMessageRow> {
    match (tables.identity_by_name(username), tables.identity_by_name(request.recipient)) {
        (Ok(sender), Ok(recipient)) => Some(composed(request, sender.id, recipient.id)),
        _ => None,
    }
}

/// The outcome of a request of the user called `username` to send a
/// message. A sender that cannot be resolved is an internal error, since
/// the sender has just authenticated; then a recipient that cannot be
/// resolved is the client's to correct; then the store may refuse.
pub open spec fn sending(tables: Tables, username: Seq<char>, request: NewMessageDTOView) -> Result<
    (),
    ProcessingMessageError,
> {
    if tables.identity_by_name(username) is Err {
        Err(ProcessingMessageError::InternalServerError)
    } else if tables.identity_by_name(request.recipient) is Err {
        Err(ProcessingMessageError::RecipientNotFound)
    } else if insertion(tables, outgoing(tables, username, request).unwrap()) is Err {
        Err(ProcessingMessageError::CannotSaveMessage)
    } else {
        Ok(())
    }
}

/// The tables after a request to send a message: on success the message is
/// inserted, on failure nothing differs.
pub open spec fn after_sending(
    tables: Tables,
    username: Seq<char>,
    request: NewMessageDTOView,
) -> Tables {
    if sending(tables, username, request) is Ok {
        after_insertion(tables, outgoing(tables, username, request).unwrap())
    } else {
        tables
    }
}

/// Builds the message to store for a request.
pub fn compose(request: &NewMessageDTO, sender: &Sender, recipient: &Recipient) -> (message:
    NewMessage)
    ensures
        message@ == composed(request@, sender.id.value, recipient.id.value),
{
    NewMessage {
        title: request.title.clone(),
        body: request.body.clone(),
        status: MessageStatus::New.to_text(),
        sender_id: sender.id,
        recipient_id: recipient.id,
    }
}

/// Sends a message from the authenticated user to the user named in the
/// request. The message is stored as `New`; its identifier is not handed
/// back.
pub fn send_message(
    database: &mut Database,
    auth: &Credentials,
    message: &NewMessageDTO,
) -> (result: Result<(), ProcessingMessageError>)
    ensures
        result == sending(old(database)@, auth.user_id@, message@),
        final(database)@ == after_sending(old(database)@, auth.user_id@, message@),
        old(database)@.wf() ==> final(database)@.wf(),
{
    let sender = match get_sender_by_name(auth.user_id.as_str(), database) {
        Ok(sender) => sender,
        Err(_) => {
            return Err(ProcessingMessageError::InternalServerError);
        },
    };
    let recipient = match get_recipient_by_name(message.recipient.as_str(), database) {
        Ok(recipient) => recipient,
        Err(_) => {
            return Err(ProcessingMessageError::RecipientNotFound);
        },
    };
    let to_save = compose(message, &sender, &recipient);
    match create_new_message(to_save, database) {
        Ok(_) => Ok(()),
        Err(_) => Err(ProcessingMessageError::CannotSaveMessage),
    }
}

} // verus!
