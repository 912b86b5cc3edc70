//! Plans and operations agree: a plan whose questions are answered by the
//! tables ends as the operation of the same name does on those tables.

use crate::authentication::authentication;
use crate::authentication::incomplete;
use crate::messages::after_sending;
use crate::messages::message::after_insertion;
use crate::messages::message::after_status_change_of;
use crate::messages::message::insertion;
use crate::messages::message::owned;
use crate::messages::message::restatus;
use crate::messages::message::selected;
use crate::messages::message::selection;
use crate::messages::message::status_change_of;
use crate::messages::message::with_sender;
use crate::messages::message::MessageRow;
use crate::messages::message::NewMessageRow;
use crate::messages::message::StatusChangeError;
use crate::messages::sending;
use crate::messages::NewMessageDTOView;
use crate::plan::authentication_step;
use crate::plan::failed;
use crate::plan::list_step;
use crate::plan::paired;
use crate::plan::send_step;
use crate::plan::status_step;
use crate::plan::AuthenticationStep;
use crate::plan::ListProgressView;
use crate::plan::ListStep;
use crate::plan::SendProgressView;
use crate::plan::SendStep;
use crate::plan::StatusProgressView;
use crate::plan::StatusStep;
use crate::schema::first_match;
use crate::schema::identified;
use crate::schema::lemma_first_match_at;
use crate::schema::lemma_first_match_none;
use crate::schema::Credential;
use crate::schema::Identity;
use crate::schema::StoreError;
use crate::schema::Tables;
use crate::schema::STATUS_MAX_LENGTH;
use vstd::prelude::*;

verus! {

/// The answer of the tables when asked for the messages addressed to a
/// recipient, with a status where one is given.
pub open spec fn load_answer(tables: Tables, recipient: u128, status: Option<Seq<char>>) -> Result<
    Seq<MessageRow>,
    StoreError,
> {
    if tables.online {
        Ok(tables.messages.filter(selected(recipient, status)))
    } else {
        Err(StoreError::Unavailable)
    }
}

/// The answer of the tables when asked for a message among those addressed
/// to a recipient.
pub open spec fn owned_answer(tables: Tables, recipient: u128, id: u128) -> Result<(), StoreError> {
    if !tables.online {
        Err(StoreError::Unavailable)
    } else if first_match(tables.messages, owned(recipient, id)) is Some {
        Ok(())
    } else {
        Err(StoreError::NotFound)
    }
}

/// The messages with identifier `id`.
pub open spec fn carrying(id: u128) -> spec_fn(MessageRow) -> bool {
    |m: MessageRow| m.id == id
}

/// The answer of the tables when asked to give a message a status: the
/// number of rows written, unless the label does not fit.
pub open spec fn update_answer(tables: Tables, id: u128, status: Seq<char>) -> Result<
    usize,
    StoreError,
> {
    if !tables.online {
        Err(StoreError::Unavailable)
    } else if status.len() > STATUS_MAX_LENGTH {
        Err(StoreError::Rejected)
    } else {
        Ok(tables.messages.filter(carrying(id)).len() as usize)
    }
}

/// The authenticator's plan, with its lookup answered by the tables, ends
/// as the authentication does; and for incomplete credentials it ends
/// without a lookup.
pub proof fn law_authentication_plan_agrees(tables: Tables, credentials: Credential)
    ensures
        incomplete(credentials) ==> authentication_step(credentials, None)
            == AuthenticationStep::Finish(authentication(tables, credentials)),
        !incomplete(credentials) ==> authentication_step(credentials, None)
            == (AuthenticationStep::Lookup {
            name: credentials.name,
            password: credentials.password.unwrap(),
        }) && authentication_step(
            credentials,
            Some(tables.credential_of(credentials.name, credentials.password.unwrap())),
        ) == AuthenticationStep::Finish(authentication(tables, credentials)),
{
}

/// The progress of a sending after the tables answered what the plan asks
/// next.
pub open spec fn send_answered(
    tables: Tables,
    username: Seq<char>,
    request: NewMessageDTOView,
    progress: SendProgressView,
) -> SendProgressView {
    match send_step(request, progress) {
        SendStep::ResolveSender => SendProgressView {
            sender: Some(tables.identity_by_name(username)),
            ..progress
        },
        SendStep::ResolveRecipient => SendProgressView {
            recipient: Some(tables.identity_by_name(request.recipient)),
            ..progress
        },
        SendStep::Insert(message) => SendProgressView {
            saved: Some(insertion(tables, message)),
            ..progress
        },
        SendStep::Finish(_) => progress,
    }
}

/// The step that the plan of a sending has reached after the tables
/// answered `answers` of its questions.
pub open spec fn send_run(
    tables: Tables,
    username: Seq<char>,
    request: NewMessageDTOView,
    progress: SendProgressView,
    answers: nat,
) -> SendStep
    decreases answers,
{
    if answers == 0 {
        send_step(request, progress)
    } else {
        send_run(
            tables,
            username,
            request,
            send_answered(tables, username, request, progress),
            (answers - 1) as nat,
        )
    }
}

/// The message that the plan of a sending asks to insert, if it gets that
/// far.
pub open spec fn send_insert(
    tables: Tables,
    username: Seq<char>,
    request: NewMessageDTOView,
) -> Option<NewMessageRow> {
    let fresh = SendProgressView { sender: None, recipient: None, saved: None };
    match send_run(tables, username, request, fresh, 2) {
        SendStep::Insert(message) => Some(message),
        _ => None,
    }
}

/// The plan of a sending, answered by the tables, has ended after three
/// answers, as the sending does. It asks for one insertion at most, and
/// the tables after the sending are the tables after that insertion.
pub proof fn law_send_plan_agrees(tables: Tables, username: Seq<char>, request: NewMessageDTOView)
    ensures
        send_run(
            tables,
            username,
            request,
            SendProgressView { sender: None, recipient: None, saved: None },
            3,
        ) == SendStep::Finish(sending(tables, username, request)),
        after_sending(tables, username, request) == match send_insert(tables, username, request) {
            Some(message) => after_insertion(tables, message),
            None => tables,
        },
{
    reveal_with_fuel(send_run, 4);
}

/// For a recipient that the tables do not know, the plan of a sending
/// never asks for an insertion.
pub proof fn law_send_plan_inserts_nothing_without_recipient(
    tables: Tables,
    username: Seq<char>,
    request: NewMessageDTOView,
)
    requires
        tables.identity_by_name(request.recipient) is Err,
    ensures
        send_insert(tables, username, request) is None,
        forall|answers: nat|
            !(#[trigger] send_run(
                tables,
                username,
                request,
                SendProgressView { sender: None, recipient: None, saved: None },
                answers,
            ) is Insert),
{
    let fresh = SendProgressView { sender: None, recipient: None, saved: None };
    reveal_with_fuel(send_run, 3);
    assert forall|answers: nat|
        !(#[trigger] send_run(tables, username, request, fresh, answers) is Insert) by {
        if answers >= 2 {
            let first = send_answered(tables, username, request, fresh);
            let second = send_answered(tables, username, request, first);
            lemma_send_run_finished(tables, username, request, second, (answers - 2) as nat);
        }
    }
}

/// A plan of a sending that has finished stays finished.
proof fn lemma_send_run_finished(
    tables: Tables,
    username: Seq<char>,
    request: NewMessageDTOView,
    progress: SendProgressView,
    answers: nat,
)
    requires
        send_step(request, progress) is Finish,
    ensures
        send_run(tables, username, request, progress, answers) == send_step(request, progress),
    decreases answers,
{
    if answers > 0 {
        lemma_send_run_finished(tables, username, request, progress, (answers - 1) as nat);
    }
}

/// The progress of a change of status after the tables answered what the
/// plan asks next.
pub open spec fn status_answered(
    tables: Tables,
    username: Seq<char>,
    id: Option<u128>,
    status: Seq<char>,
    progress: StatusProgressView,
) -> StatusProgressView {
    match status_step(id, status, progress) {
        StatusStep::ResolveUser => StatusProgressView {
            user: Some(tables.identity_by_name(username)),
            ..progress
        },
        StatusStep::FindOwned { recipient, id } => StatusProgressView {
            owned: Some(owned_answer(tables, recipient, id)),
            ..progress
        },
        StatusStep::Update { id, status } => StatusProgressView {
            updated: Some(update_answer(tables, id, status)),
            ..progress
        },
        StatusStep::Finish(_) => progress,
    }
}

/// The step that the plan of a change of status has reached after the
/// tables answered `answers` of its questions.
pub open spec fn status_run(
    tables: Tables,
    username: Seq<char>,
    id: Option<u128>,
    status: Seq<char>,
    progress: StatusProgressView,
    answers: nat,
) -> StatusStep
    decreases answers,
{
    if answers == 0 {
        status_step(id, status, progress)
    } else {
        status_run(
            tables,
            username,
            id,
            status,
            status_answered(tables, username, id, status, progress),
            (answers - 1) as nat,
        )
    }
}

/// The update that the plan of a change of status asks for, if it gets
/// that far: the identifier and the status to give it.
pub open spec fn status_update(
    tables: Tables,
    username: Seq<char>,
    id: Option<u128>,
    status: Seq<char>,
) -> Option<(u128, Seq<char>)> {
    let fresh = StatusProgressView { user: None, owned: None, updated: None };
    match status_run(tables, username, id, status, fresh, 2) {
        StatusStep::Update { id, status } => Some((id, status)),
        _ => None,
    }
}

/// The plan of a change of status, answered by the tables, has ended after
/// three answers, as the change of status does; without an identifier it
/// ends before the first question. It asks for one update at most, for the
/// identifier and the status that were given, and the tables after the
/// change of status are the tables after that update, where the store
/// accepts it.
pub proof fn law_status_plan_agrees(
    tables: Tables,
    username: Seq<char>,
    id: Option<u128>,
    status: Seq<char>,
)
    ensures
        status_run(
            tables,
            username,
            id,
            status,
            StatusProgressView { user: None, owned: None, updated: None },
            3,
        ) == StatusStep::Finish(
            match id {
                Some(id) => status_change_of(tables, username, id, status),
                None => Err(StatusChangeError::InvalidIdentifier),
            },
        ),
        id is None ==> status_step(
            id,
            status,
            StatusProgressView { user: None, owned: None, updated: None },
        ) is Finish,
        match status_update(tables, username, id, status) {
            Some((updated, label)) => id == Some(updated) && label == status,
            None => true,
        },
        id is Some ==> after_status_change_of(tables, username, id.unwrap(), status)
            == match status_update(tables, username, id, status) {
            Some((updated, label)) => if update_answer(tables, updated, label) is Ok {
                Tables { messages: tables.messages.map_values(restatus(updated, label)), ..tables }
            } else {
                tables
            },
            None => tables,
        },
{
    reveal_with_fuel(status_run, 4);
}

/// The progress of a listing after the tables answered what the plan asks
/// next.
pub open spec fn list_answered(
    tables: Tables,
    username: Seq<char>,
    status: Option<Seq<char>>,
    progress: ListProgressView,
) -> ListProgressView {
    match list_step(status, progress) {
        ListStep::ResolveReader => ListProgressView {
            reader: Some(tables.identity_by_name(username)),
            ..progress
        },
        ListStep::LoadMessages { recipient, status } => ListProgressView {
            messages: Some(load_answer(tables, recipient, status)),
            ..progress
        },
        ListStep::ResolveSender { id } => ListProgressView {
            senders: progress.senders.push(tables.identity_by_id(id)),
            ..progress
        },
        ListStep::Finish(_) => progress,
    }
}

/// The step that the plan of a listing has reached after the tables
/// answered `answers` of its questions.
pub open spec fn list_run(
    tables: Tables,
    username: Seq<char>,
    status: Option<Seq<char>>,
    progress: ListProgressView,
    answers: nat,
) -> ListStep
    decreases answers,
{
    if answers == 0 {
        list_step(status, progress)
    } else {
        list_run(
            tables,
            username,
            status,
            list_answered(tables, username, status, progress),
            (answers - 1) as nat,
        )
    }
}

/// A plan that has finished stays finished.
proof fn lemma_list_run_finished(
    tables: Tables,
    username: Seq<char>,
    status: Option<Seq<char>>,
    progress: ListProgressView,
    answers: nat,
)
    requires
        list_step(status, progress) is Finish,
    ensures
        list_run(tables, username, status, progress, answers) == list_step(status, progress),
    decreases answers,
{
    if answers > 0 {
        lemma_list_run_finished(tables, username, status, progress, (answers - 1) as nat);
    }
}

/// Once the messages are loaded and the senders of the first `k` of them
/// are found, the plan needs as many answers as messages are left, at most,
/// to end as the listing does.
proof fn lemma_list_run_senders(
    tables: Tables,
    username: Seq<char>,
    status: Option<Seq<char>>,
    progress: ListProgressView,
    answers: nat,
)
    requires
        tables.online,
        tables.identity_by_name(username) is Ok,
        progress.reader == Some(tables.identity_by_name(username)),
        progress.messages == Some(
            load_answer(tables, tables.identity_by_name(username).unwrap().id, status),
        ),
        progress.senders.len() <= progress.messages.unwrap().unwrap().len(),
        forall|i: int|
            0 <= i < progress.senders.len() ==> #[trigger] progress.senders[i] == Ok::<
                Identity,
                StoreError,
            >(with_sender(tables.users)(progress.messages.unwrap().unwrap()[i]).1)
                && first_match(
                tables.users,
                identified(progress.messages.unwrap().unwrap()[i].sender_id),
            ) is Some,
        answers >= progress.messages.unwrap().unwrap().len() - progress.senders.len(),
    ensures
        list_run(tables, username, status, progress, answers) == ListStep::Finish(
            selection(tables, username, status),
        ),
    decreases answers,
{
    let found = progress.messages.unwrap().unwrap();
    let k = progress.senders.len() as int;
    lemma_first_match_none(progress.senders, failed());
    if k == found.len() {
        assert forall|i: int| 0 <= i < found.len() implies first_match(
            tables.users,
            identified((#[trigger] found[i]).sender_id),
        ) is Some by {
            assert(progress.senders[i] is Ok);
        }
        assert(paired(found, progress.senders) =~= found.map_values(with_sender(tables.users)));
        assert(list_step(status, progress) == ListStep::Finish(
            selection(tables, username, status),
        ));
        lemma_list_run_finished(tables, username, status, progress, answers);
    } else {
        let answer = tables.identity_by_id(found[k].sender_id);
        let next = list_answered(tables, username, status, progress);
        assert(next.senders == progress.senders.push(answer));
        if answer is Err {
            assert(failed()(next.senders[k]));
            assert forall|j: int| 0 <= j < k implies !failed()(#[trigger] next.senders[j]) by {
                assert(next.senders[j] == progress.senders[j]);
            }
            lemma_first_match_at(next.senders, failed(), k);
            assert(first_match(tables.users, identified(found[k].sender_id)) is None);
            assert(!crate::messages::message::senders_known(tables.users, found));
            assert(list_step(status, next) == ListStep::Finish(
                selection(tables, username, status),
            ));
            lemma_list_run_finished(tables, username, status, next, (answers - 1) as nat);
        } else {
            assert forall|i: int| 0 <= i < next.senders.len() implies #[trigger] next.senders[i]
                == Ok::<Identity, StoreError>(
                with_sender(tables.users)(next.messages.unwrap().unwrap()[i]).1,
            ) && first_match(
                tables.users,
                identified(next.messages.unwrap().unwrap()[i].sender_id),
            ) is Some by {
                if i < k {
                    assert(next.senders[i] == progress.senders[i]);
                }
            }
            lemma_list_run_senders(tables, username, status, next, (answers - 1) as nat);
        }
    }
}

/// The plan of a listing, answered by the tables, ends as the listing does
/// once the reader, the messages and the sender of each message were asked
/// for; with fewer senders to ask for than that, it has ended earlier and
/// asks no more.
pub proof fn law_list_plan_agrees(
    tables: Tables,
    username: Seq<char>,
    status: Option<Seq<char>>,
    answers: nat,
)
    requires
        answers >= 2 + tables.messages.len(),
    ensures
        list_run(
            tables,
            username,
            status,
            ListProgressView { reader: None, messages: None, senders: Seq::empty() },
            answers,
        ) == ListStep::Finish(selection(tables, username, status)),
{
    let fresh = ListProgressView { reader: None, messages: None, senders: Seq::empty() };
    let first = list_answered(tables, username, status, fresh);
    reveal_with_fuel(list_run, 3);
    if tables.identity_by_name(username) is Err {
        lemma_list_run_finished(tables, username, status, first, (answers - 1) as nat);
    } else {
        let second = list_answered(tables, username, status, first);
        let reader = tables.identity_by_name(username).unwrap().id;
        tables.messages.lemma_filter_len(selected(reader, status));
        lemma_list_run_senders(tables, username, status, second, (answers - 2) as nat);
    }
}

} // verus!
