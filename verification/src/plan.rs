//! The operations as plans: given the answers that the store has given so
//! far, what to ask it next, or how the operation ends.
//!
//! A plan never touches a store. Whoever holds one asks the question, adds
//! the answer to the progress and asks the plan again, until it finishes.
//! Answered by the tables of [`crate::schema`], each plan ends as the
//! operation of the same name does.

use crate::authentication::incomplete;
use crate::authentication::is_incomplete;
use crate::authentication::judge;
use crate::authentication::user::ExisitingUser;
use crate::authentication::verdict;
use crate::authentication::Credentials;
use crate::authentication::SimpleAuthError;
use crate::identifier::uuid_from_text;
use crate::identifier::Identifier;
use crate::messages::compose;
use crate::messages::composed;
use crate::messages::message::listed;
use crate::messages::message::pair_rows;
use crate::messages::message::Message;
use crate::messages::message::MessageRow;
use crate::messages::message::NewMessage;
use crate::messages::message::NewMessageRow;
use crate::messages::message::StatusChangeError;
use crate::messages::recipient::Recipient;
use crate::messages::sender::Sender;
use crate::messages::NewMessageDTO;
use crate::messages::NewMessageDTOView;
use crate::messages::ProcessingMessageError;
use crate::schema::first_match;
use crate::schema::lemma_first_match_at;
use crate::schema::lemma_first_match_none;
use crate::schema::message_rows;
use crate::schema::optional_text;
use crate::schema::viewed;
use crate::schema::Credential;
use crate::schema::Identity;
use crate::schema::StoreError;
use vstd::prelude::*;

verus! {

/// An answer of the store, if it was asked yet, with its value replaced by
/// the value's view.
pub open spec fn answered<T: View>(answer: Option<Result<T, StoreError>>) -> Option<
    Result<T::V, StoreError>,
> {
    match answer {
        Some(Ok(value)) => Some(Ok(value@)),
        Some(Err(error)) => Some(Err(error)),
        None => None,
    }
}

/// What the authenticator does next.
#[derive(Debug, PartialEq, Eq)]
pub enum AuthenticationAction {
    /// Ask the credential store for the user with this name and password.
    Lookup { name: String, password: String },
    /// Stop with this outcome.
    Finish(Result<(), SimpleAuthError>),
}

/// What the authenticator does next, as a mathematical value.
pub enum AuthenticationStep {
    Lookup { name: Seq<char>, password: Seq<char> },
    Finish(Result<(), SimpleAuthError>),
}

impl View for AuthenticationAction {
    type V = AuthenticationStep;

    open spec fn view(&self) -> AuthenticationStep {
        match self {
            AuthenticationAction::Lookup { name, password } => AuthenticationStep::Lookup {
                name: name@,
                password: password@,
            },
            AuthenticationAction::Finish(outcome) => AuthenticationStep::Finish(*outcome),
        }
    }
}

/// The plan of the authenticator: incomplete credentials end it at once;
/// otherwise one lookup is made, and its answer decides.
pub open spec fn authentication_step(
    credentials: Credential,
    lookup: Option<Result<Credential, StoreError>>,
) -> AuthenticationStep {
    if incomplete(credentials) {
        AuthenticationStep::Finish(Err(SimpleAuthError::EmptyPasswordNotAllowed))
    } else {
        match lookup {
            None => AuthenticationStep::Lookup {
                name: credentials.name,
                password: credentials.password.unwrap(),
            },
            Some(answer) => AuthenticationStep::Finish(verdict(answer)),
        }
    }
}

/// What the authenticator does next, given the answer of the credential
/// store if it was asked already.
pub fn next_authentication_action(
    credentials: &Credentials,
    lookup: &Option<Result<ExisitingUser, StoreError>>,
) -> (action: AuthenticationAction)
    ensures
        action@ == authentication_step(credentials@, answered(*lookup)),
{
    if is_incomplete(credentials) {
        return AuthenticationAction::Finish(Err(SimpleAuthError::EmptyPasswordNotAllowed));
    }
    match lookup {
        None => {
            let password = match &credentials.password {
                Some(password) => password.clone(),
                None => String::new(),
            };
            AuthenticationAction::Lookup { name: credentials.user_id.clone(), password }
        },
        Some(answer) => AuthenticationAction::Finish(judge(answer)),
    }
}

/// The answers that the store has given while a message is being sent.
#[derive(Debug, PartialEq, Eq)]
pub struct SendProgress {
    pub sender: Option<Result<Sender, StoreError>>,
    pub recipient: Option<Result<Recipient, StoreError>>,
    pub saved: Option<Result<usize, StoreError>>,
}

/// The answers given while a message is being sent, as mathematical values.
pub struct SendProgressView {
    pub sender: Option<Result<Identity, StoreError>>,
    pub recipient: Option<Result<Identity, StoreError>>,
    pub saved: Option<Result<usize, StoreError>>,
}

impl View for SendProgress {
    type V = SendProgressView;

    open spec fn view(&self) -> SendProgressView {
        SendProgressView {
            sender: answered(self.sender),
            recipient: answered(self.recipient),
            saved: self.saved,
        }
    }
}

/// What the sending of a message does next.
#[derive(Debug, PartialEq, Eq)]
pub enum SendAction {
    /// Ask the store for the user called as the authenticated user is.
    ResolveSender,
    /// Ask the store for the user called as the request names the recipient.
    ResolveRecipient,
    /// Ask the store to insert this message.
    Insert(NewMessage),
    /// Stop with this outcome.
    Finish(Result<(), ProcessingMessageError>),
}

/// What the sending of a message does next, as a mathematical value.
pub enum SendStep {
    ResolveSender,
    ResolveRecipient,
    Insert(NewMessageRow),
    Finish(Result<(), ProcessingMessageError>),
}

impl View for SendAction {
    type V = SendStep;

    open spec fn view(&self) -> SendStep {
        match self {
            SendAction::ResolveSender => SendStep::ResolveSender,
            SendAction::ResolveRecipient => SendStep::ResolveRecipient,
            SendAction::Insert(message) => SendStep::Insert(message@),
            SendAction::Finish(outcome) => SendStep::Finish(*outcome),
        }
    }
}

/// The plan of sending: the sender is resolved, then the recipient, then
/// the message is inserted. The first answer that is a failure ends the
/// plan, so nothing is inserted for a recipient that was not found.
pub open spec fn send_step(request: NewMessageDTOView, progress: SendProgressView) -> SendStep {
    match progress.sender {
        None => SendStep::ResolveSender,
        Some(Err(_)) => SendStep::Finish(Err(ProcessingMessageError::InternalServerError)),
        Some(Ok(sender)) => match progress.recipient {
            None => SendStep::ResolveRecipient,
            Some(Err(_)) => SendStep::Finish(Err(ProcessingMessageError::RecipientNotFound)),
            Some(Ok(recipient)) => match progress.saved {
                None => SendStep::Insert(composed(request, sender.id, recipient.id)),
                Some(Err(_)) => SendStep::Finish(Err(ProcessingMessageError::CannotSaveMessage)),
                Some(Ok(_)) => SendStep::Finish(Ok(())),
            },
        },
    }
}

/// What the sending of a message does next, given the answers so far.
pub fn next_send_action(request: &NewMessageDTO, progress: &SendProgress) -> (action: SendAction)
    ensures
        action@ == send_step(request@, progress@),
{
    let sender = match &progress.sender {
        None => {
            return SendAction::ResolveSender;
        },
        Some(Err(_)) => {
            return SendAction::Finish(Err(ProcessingMessageError::InternalServerError));
        },
        Some(Ok(sender)) => sender,
    };
    let recipient = match &progress.recipient {
        None => {
            return SendAction::ResolveRecipient;
        },
        Some(Err(_)) => {
            return SendAction::Finish(Err(ProcessingMessageError::RecipientNotFound));
        },
        Some(Ok(recipient)) => recipient,
    };
    match &progress.saved {
        None => SendAction::Insert(compose(request, sender, recipient)),
        Some(Err(_)) => SendAction::Finish(Err(ProcessingMessageError::CannotSaveMessage)),
        Some(Ok(_)) => SendAction::Finish(Ok(())),
    }
}

/// The answers that the store has given while the status of a message is
/// being changed.
#[derive(Debug, PartialEq, Eq)]
pub struct StatusProgress {
    /// The acting user.
    pub user: Option<Result<Recipient, StoreError>>,
    /// Whether a message with the identifier is addressed to the user.
    pub owned: Option<Result<(), StoreError>>,
    /// How many rows the update has written.
    pub updated: Option<Result<usize, StoreError>>,
}

/// The answers given while a status is being changed, as mathematical
/// values.
pub struct StatusProgressView {
    pub user: Option<Result<Identity, StoreError>>,
    pub owned: Option<Result<(), StoreError>>,
    pub updated: Option<Result<usize, StoreError>>,
}

impl View for StatusProgress {
    type V = StatusProgressView;

    open spec fn view(&self) -> StatusProgressView {
        StatusProgressView {
            user: answered(self.user),
            owned: self.owned,
            updated: self.updated,
        }
    }
}

/// What the change of a status does next.
#[derive(Debug, PartialEq, Eq)]
pub enum StatusAction {
    /// Ask the store for the acting user.
    ResolveUser,
    /// Ask the store for the message with this identifier among those
    /// addressed to this recipient.
    FindOwned { recipient: Identifier, id: Identifier },
    /// Ask the store to give the message with this identifier this status.
    Update { id: Identifier, status: String },
    /// Stop with this outcome.
    Finish(Result<(), StatusChangeError>),
}

/// What the change of a status does next, as a mathematical value.
pub enum StatusStep {
    ResolveUser,
    FindOwned { recipient: u128, id: u128 },
    Update { id: u128, status: Seq<char> },
    Finish(Result<(), StatusChangeError>),
}

impl View for StatusAction {
    type V = StatusStep;

    open spec fn view(&self) -> StatusStep {
        match self {
            StatusAction::ResolveUser => StatusStep::ResolveUser,
            StatusAction::FindOwned { recipient, id } => StatusStep::FindOwned {
                recipient: recipient.value,
                id: id.value,
            },
            StatusAction::Update { id, status } => StatusStep::Update {
                id: id.value,
                status: status@,
            },
            StatusAction::Finish(outcome) => StatusStep::Finish(*outcome),
        }
    }
}

/// How a failure of the store ends a change of status: a row that is not
/// there is a matter of ownership, anything else keeps the status from
/// being modified.
pub open spec fn status_failure(error: StoreError) -> StatusChangeError {
    match error {
        StoreError::NotFound => StatusChangeError::OwnershipOrNotFound,
        _ => StatusChangeError::CannotModifyStatus,
    }
}

/// The plan of a change of status, given the identifier that was read from
/// the request, if one was: a text that is no identifier ends the plan
/// before the store is asked; then the user is resolved, the message is
/// looked for among the user's own, and only then updated.
pub open spec fn status_step(
    id: Option<u128>,
    status: Seq<char>,
    progress: StatusProgressView,
) -> StatusStep {
    match id {
        None => StatusStep::Finish(Err(StatusChangeError::InvalidIdentifier)),
        Some(id) => match progress.user {
            None => StatusStep::ResolveUser,
            Some(Err(error)) => StatusStep::Finish(Err(status_failure(error))),
            Some(Ok(user)) => match progress.owned {
                None => StatusStep::FindOwned { recipient: user.id, id },
                Some(Err(error)) => StatusStep::Finish(Err(status_failure(error))),
                Some(Ok(_)) => match progress.updated {
                    None => StatusStep::Update { id, status },
                    Some(Err(_)) => StatusStep::Finish(
                        Err(StatusChangeError::CannotModifyStatus),
                    ),
                    Some(Ok(_)) => StatusStep::Finish(Ok(())),
                },
            },
        },
    }
}

/// How a failure of the store ends a change of status.
pub fn status_failure_of(error: &StoreError) -> (failure: StatusChangeError)
    ensures
        failure == status_failure(*error),
{
    match error {
        StoreError::NotFound => StatusChangeError::OwnershipOrNotFound,
        _ => StatusChangeError::CannotModifyStatus,
    }
}

/// The identifier as a mathematical value, if there is one.
pub open spec fn optional_id(id: Option<Identifier>) -> Option<u128> {
    match id {
        Some(id) => Some(id.value),
        None => None,
    }
}

/// What the change of a status does next, given the identifier that was
/// read from the request, if one was, and the answers so far.
pub fn next_status_action_for(
    id: Option<Identifier>,
    status: &str,
    progress: &StatusProgress,
) -> (action: StatusAction)
    ensures
        action@ == status_step(optional_id(id), status@, progress@),
{
    let id = match id {
        Some(id) => id,
        None => {
            return StatusAction::Finish(Err(StatusChangeError::InvalidIdentifier));
        },
    };
    let user = match &progress.user {
        None => {
            return StatusAction::ResolveUser;
        },
        Some(Err(error)) => {
            return StatusAction::Finish(Err(status_failure_of(error)));
        },
        Some(Ok(user)) => user,
    };
    match &progress.owned {
        None => {
            return StatusAction::FindOwned { recipient: user.id, id };
        },
        Some(Err(error)) => {
            return StatusAction::Finish(Err(status_failure_of(error)));
        },
        Some(Ok(_)) => {},
    }
    match &progress.updated {
        None => StatusAction::Update { id, status: status.to_owned() },
        Some(Err(_)) => StatusAction::Finish(Err(StatusChangeError::CannotModifyStatus)),
        Some(Ok(_)) => StatusAction::Finish(Ok(())),
    }
}

/// What the change of a status does next, given the answers so far, for
/// the message whose identifier is printed as `message_uuid`.
pub fn next_status_action(
    message_uuid: &str,
    status: &str,
    progress: &StatusProgress,
) -> (action: StatusAction)
    ensures
        action@ == status_step(uuid_from_text(message_uuid@), status@, progress@),
{
    next_status_action_for(Identifier::parse_str(message_uuid), status, progress)
}

/// The answers that the store has given while messages are being listed.
#[derive(Debug, PartialEq, Eq)]
pub struct ListProgress {
    /// The user whose messages are listed.
    pub reader: Option<Result<Recipient, StoreError>>,
    /// The messages addressed to the user.
    pub messages: Option<Result<Vec<Message>, StoreError>>,
    /// The senders of the messages, in the order of the messages, as far as
    /// they were asked for.
    pub senders: Vec<Result<Sender, StoreError>>,
}

/// The answers given while messages are being listed, as mathematical
/// values.
pub struct ListProgressView {
    pub reader: Option<Result<Identity, StoreError>>,
    pub messages: Option<Result<Seq<MessageRow>, StoreError>>,
    pub senders: Seq<Result<Identity, StoreError>>,
}

/// The answers about senders with each sender replaced by its view.
pub open spec fn sender_answers(senders: Seq<Result<Sender, StoreError>>) -> Seq<
    Result<Identity, StoreError>,
> {
    senders.map_values(|answer: Result<Sender, StoreError>| viewed(answer))
}

impl View for ListProgress {
    type V = ListProgressView;

    open spec fn view(&self) -> ListProgressView {
        ListProgressView {
            reader: answered(self.reader),
            messages: match self.messages {
                Some(Ok(found)) => Some(Ok(message_rows(found@))),
                Some(Err(error)) => Some(Err(error)),
                None => None,
            },
            senders: sender_answers(self.senders@),
        }
    }
}

/// What the listing of messages does next.
#[derive(Debug, PartialEq, Eq)]
pub enum ListAction {
    /// Ask the store for the user whose messages are listed.
    ResolveReader,
    /// Ask the store for the messages addressed to this recipient, with
    /// this status where one is given.
    LoadMessages { recipient: Identifier, status: Option<String> },
    /// Ask the store for the user with this identifier, the sender of the
    /// next message.
    ResolveSender { id: Identifier },
    /// Stop with this outcome.
    Finish(Result<Vec<(Message, Sender)>, StoreError>),
}

/// What the listing of messages does next, as a mathematical value.
pub enum ListStep {
    ResolveReader,
    LoadMessages { recipient: u128, status: Option<Seq<char>> },
    ResolveSender { id: u128 },
    Finish(Result<Seq<(MessageRow, Identity)>, StoreError>),
}

impl View for ListAction {
    type V = ListStep;

    open spec fn view(&self) -> ListStep {
        match self {
            ListAction::ResolveReader => ListStep::ResolveReader,
            ListAction::LoadMessages { recipient, status } => ListStep::LoadMessages {
                recipient: recipient.value,
                status: optional_text(*status),
            },
            ListAction::ResolveSender { id } => ListStep::ResolveSender { id: id.value },
            ListAction::Finish(outcome) => ListStep::Finish(listed(*outcome)),
        }
    }
}

/// The answers that are failures.
pub open spec fn failed() -> spec_fn(Result<Identity, StoreError>) -> bool {
    |answer: Result<Identity, StoreError>| answer is Err
}

/// Each message with the sender that was found for it.
pub open spec fn paired(found: Seq<MessageRow>, senders: Seq<Result<Identity, StoreError>>) -> Seq<
    (MessageRow, Identity),
> {
    Seq::new(found.len(), |i: int| (found[i], senders[i].unwrap()))
}

/// The plan of a listing: the reader is resolved, then the messages are
/// loaded, then the sender of each message is resolved in turn. The first
/// answer that is a failure ends the plan with that failure.
pub open spec fn list_step(status: Option<Seq<char>>, progress: ListProgressView) -> ListStep {
    match progress.reader {
        None => ListStep::ResolveReader,
        Some(Err(error)) => ListStep::Finish(Err(error)),
        Some(Ok(reader)) => match progress.messages {
            None => ListStep::LoadMessages { recipient: reader.id, status },
            Some(Err(error)) => ListStep::Finish(Err(error)),
            Some(Ok(found)) => match first_match(progress.senders, failed()) {
                Some(failure) => ListStep::Finish(Err(failure->Err_0)),
                None => if progress.senders.len() < found.len() {
                    ListStep::ResolveSender { id: found[progress.senders.len() as int].sender_id }
                } else {
                    ListStep::Finish(Ok(paired(found, progress.senders)))
                },
            },
        },
    }
}

/// The first failure among the answers about senders.
fn first_failure(senders: &Vec<Result<Sender, StoreError>>) -> (failure: Option<StoreError>)
    ensures
        match failure {
            Some(error) => first_match(sender_answers(senders@), failed()) == Some(
                Err::<Identity, StoreError>(error),
            ),
            None => first_match(sender_answers(senders@), failed()) is None,
        },
{
    let ghost answers = sender_answers(senders@);
    let mut i: usize = 0;
    while i < senders.len()
        invariant
            i <= senders.len(),
            answers == sender_answers(senders@),
            forall|j: int| 0 <= j < i ==> !failed()(#[trigger] answers[j]),
        decreases senders.len() - i,
    {
        match &senders[i] {
            Ok(_) => {},
            Err(error) => {
                proof {
                    lemma_first_match_at(answers, failed(), i as int);
                }
                return Some(*error);
            },
        }
        i += 1;
    }
    proof {
        lemma_first_match_none(answers, failed());
    }
    None
}

/// What the listing of messages does next, given the answers so far. The
/// status is the one that the listing is restricted to, if any.
pub fn next_list_action(status: &Option<String>, progress: &ListProgress) -> (action: ListAction)
    ensures
        action@ == list_step(optional_text(*status), progress@),
{
    let reader = match &progress.reader {
        None => {
            return ListAction::ResolveReader;
        },
        Some(Err(error)) => {
            return ListAction::Finish(Err(*error));
        },
        Some(Ok(reader)) => reader,
    };
    let found = match &progress.messages {
        None => {
            return ListAction::LoadMessages { recipient: reader.id, status: status.clone() };
        },
        Some(Err(error)) => {
            return ListAction::Finish(Err(*error));
        },
        Some(Ok(found)) => found,
    };
    if let Some(error) = first_failure(&progress.senders) {
        return ListAction::Finish(Err(error));
    }
    if progress.senders.len() < found.len() {
        return ListAction::ResolveSender { id: found[progress.senders.len()].sender_id };
    }
    let ghost rows = message_rows(found@);
    let ghost answers = sender_answers(progress.senders@);
    let mut pairs: Vec<(Message, Sender)> = Vec::new();
    let mut i: usize = 0;
    while i < found.len()
        invariant
            i <= found.len(),
            found.len() <= progress.senders.len(),
            rows == message_rows(found@),
            answers == sender_answers(progress.senders@),
            first_match(answers, failed()) is None,
            pairs.len() == i,
            forall|j: int|
                0 <= j < i ==> #[trigger] pair_rows(pairs@)[j] == (rows[j], answers[j].unwrap()),
        decreases found.len() - i,
    {
        let sender = match &progress.senders[i] {
            Ok(sender) => sender.clone(),
            Err(error) => {
                proof {
                    crate::schema::lemma_first_match_exists(answers, failed(), i as int);
                }
                return ListAction::Finish(Err(*error));
            },
        };
        let message = found[i].clone();
        let ghost before = pairs@;
        pairs.push((message, sender));
        proof {
            assert(rows[i as int] == message@);
            assert(answers[i as int] == Ok::<Identity, StoreError>(sender@));
            assert forall|j: int| 0 <= j < i + 1 implies #[trigger] pair_rows(pairs@)[j] == (
                rows[j],
                answers[j].unwrap(),
            ) by {
                if j < i {
                    assert(pair_rows(pairs@)[j] == pair_rows(before)[j]);
                }
            }
        }
        i += 1;
    }
    assert(pair_rows(pairs@) =~= paired(rows, answers));
    ListAction::Finish(Ok(pairs))
}

} // verus!
