//! The two relational tables, `users` and `messages`, held in memory, and
//! the mathematical model of what a query over them answers.

use crate::messages::message::Message;
use crate::messages::message::MessageRow;
use vstd::prelude::*;

verus! {

/// Why the store did not answer a query with a row.
#[derive(Clone, Copy, Debug, PartialEq, Eq, Structural)]
pub enum StoreError {
    /// No row matches the query.
    NotFound,
    /// The store cannot be reached.
    Unavailable,
    /// The store refuses the write because a constraint of the table fails.
    Rejected,
}

/// The longest status label that the `messages` table holds, in characters.
pub const STATUS_MAX_LENGTH: usize = 20;

/// A row of the `users` table.
#[derive(Clone, Debug, PartialEq, Eq)]
pub struct User {
    pub id: crate::identifier::Identifier,
    pub name: String,
    pub surname: String,
    pub email: String,
    pub role: String,
    pub password: Option<String>,
}

/// A row of the `users` table as a mathematical value.
pub struct UserRow {
    pub id: u128,
    pub name: Seq<char>,
    pub surname: Seq<char>,
    pub email: Seq<char>,
    pub role: Seq<char>,
    pub password: Option<Seq<char>>,
}

/// The externally visible part of a user: identifier and name.
pub struct Identity {
    pub id: u128,
    pub name: Seq<char>,
}

/// A user name with the password stored for it, if any.
pub struct Credential {
    pub name: Seq<char>,
    pub password: Option<Seq<char>>,
}

/// The characters of an optional text.
pub open spec fn optional_text(text: Option<String>) -> Option<Seq<char>> {
    match text {
        Some(t) => Some(t@),
        None => None,
    }
}

impl View for User {
    type V = UserRow;

    open spec fn view(&self) -> UserRow {
        UserRow {
            id: self.id.value,
            name: self.name@,
            surname: self.surname@,
            email: self.email@,
            role: self.role@,
            password: optional_text(self.password),
        }
    }
}

impl UserRow {
    pub open spec fn identity(self) -> Identity {
        Identity { id: self.id, name: self.name }
    }

    pub open spec fn credential(self) -> Credential {
        Credential { name: self.name, password: self.password }
    }
}

/// The rows that a vector of users stands for.
pub open spec fn user_rows(users: Seq<User>) -> Seq<UserRow> {
    users.map_values(|u: User| u@)
}

/// The rows that a vector of messages stands for.
pub open spec fn message_rows(messages: Seq<Message>) -> Seq<MessageRow> {
    messages.map_values(|m: Message| m@)
}

/// The users called `name`.
pub open spec fn named(name: Seq<char>) -> spec_fn(UserRow) -> bool {
    |u: UserRow| u.name == name
}

/// The users with identifier `id`.
pub open spec fn identified(id: u128) -> spec_fn(UserRow) -> bool {
    |u: UserRow| u.id == id
}

/// The users called `name` whose stored password is exactly `password`.
pub open spec fn holding(name: Seq<char>, password: Seq<char>) -> spec_fn(UserRow) -> bool {
    |u: UserRow| u.name == name && u.password == Some(password)
}

/// `i` is the position of the first row that `wanted` accepts.
pub open spec fn is_first_match<T>(rows: Seq<T>, wanted: spec_fn(T) -> bool, i: int) -> bool {
    &&& 0 <= i < rows.len()
    &&& wanted(rows[i])
    &&& forall|j: int| 0 <= j < i ==> !wanted(#[trigger] rows[j])
}

/// The first row that `wanted` accepts, if there is one.
pub open spec fn first_match<T>(rows: Seq<T>, wanted: spec_fn(T) -> bool) -> Option<T> {
    if exists|i: int| is_first_match(rows, wanted, i) {
        Some(rows[choose|i: int| is_first_match(rows, wanted, i)])
    } else {
        None
    }
}

/// A row at position `i` that `wanted` accepts, with no accepted row before
/// it, is the first match.
pub proof fn lemma_first_match_at<T>(rows: Seq<T>, wanted: spec_fn(T) -> bool, i: int)
    requires
        is_first_match(rows, wanted, i),
    ensures
        first_match(rows, wanted) == Some(rows[i]),
{
    let k = choose|k: int| is_first_match(rows, wanted, k);
    if k < i {
        assert(!wanted(rows[k]));
    }
    if i < k {
        assert(!wanted(rows[i]));
    }
}

/// Where `wanted` accepts no row, there is no first match.
pub proof fn lemma_first_match_none<T>(rows: Seq<T>, wanted: spec_fn(T) -> bool)
    requires
        forall|j: int| 0 <= j < rows.len() ==> !wanted(#[trigger] rows[j]),
    ensures
        first_match(rows, wanted) is None,
{
}

/// Where `wanted` accepts the row at position `i`, there is a first match,
/// it stands at or before `i`, and `wanted` accepts it.
pub proof fn lemma_first_match_exists<T>(rows: Seq<T>, wanted: spec_fn(T) -> bool, i: int)
    requires
        0 <= i < rows.len(),
        wanted(rows[i]),
    ensures
        first_match(rows, wanted) is Some,
        wanted(first_match(rows, wanted).unwrap()),
        exists|k: int| 0 <= k <= i && is_first_match(rows, wanted, k) && first_match(rows, wanted)
            == Some(rows[k]),
    decreases i,
{
    if exists|j: int| 0 <= j < i && wanted(rows[j]) {
        let j = choose|j: int| 0 <= j < i && wanted(rows[j]);
        lemma_first_match_exists(rows, wanted, j);
    } else {
        assert(is_first_match(rows, wanted, i));
        lemma_first_match_at(rows, wanted, i);
    }
}

/// A first match is a row of the table that `wanted` accepts.
pub proof fn lemma_first_match_is_row<T>(rows: Seq<T>, wanted: spec_fn(T) -> bool)
    requires
        first_match(rows, wanted) is Some,
    ensures
        exists|k: int|
            is_first_match(rows, wanted, k) && first_match(rows, wanted) == Some(rows[k]),
        wanted(first_match(rows, wanted).unwrap()),
{
    let k = choose|k: int| is_first_match(rows, wanted, k);
    assert(is_first_match(rows, wanted, k));
}

/// Where `wanted` accepts no row, the selection is empty.
pub proof fn lemma_filter_none<T>(rows: Seq<T>, wanted: spec_fn(T) -> bool)
    requires
        forall|i: int| 0 <= i < rows.len() ==> !wanted(#[trigger] rows[i]),
    ensures
        rows.filter(wanted) == Seq::<T>::empty(),
    decreases rows.len(),
{
    reveal(Seq::filter);
    if rows.len() > 0 {
        let front = rows.drop_last();
        assert forall|i: int| 0 <= i < front.len() implies !wanted(#[trigger] front[i]) by {
            assert(front[i] == rows[i]);
        }
        lemma_filter_none(front, wanted);
    }
}

/// Where `wanted` accepts the row at position `k` and no other, the
/// selection is that row alone.
pub proof fn lemma_filter_single<T>(rows: Seq<T>, wanted: spec_fn(T) -> bool, k: int)
    requires
        0 <= k < rows.len(),
        wanted(rows[k]),
        forall|i: int| 0 <= i < rows.len() && i != k ==> !wanted(#[trigger] rows[i]),
    ensures
        rows.filter(wanted) == seq![rows[k]],
    decreases rows.len(),
{
    let front = rows.drop_last();
    assert(rows == front.push(rows.last()));
    front.lemma_filter_push(rows.last(), wanted);
    assert forall|i: int| 0 <= i < front.len() && i != k implies !wanted(#[trigger] front[i]) by {
        assert(front[i] == rows[i]);
    }
    if k == rows.len() - 1 {
        lemma_filter_none(front, wanted);
        assert(Seq::<T>::empty().push(rows[k]) =~= seq![rows[k]]);
    } else {
        assert(front[k] == rows[k]);
        lemma_filter_single(front, wanted, k);
    }
}

/// A result with its value replaced by the value's view.
pub open spec fn viewed<T: View, E>(result: Result<T, E>) -> Result<T::V, E> {
    match result {
        Ok(value) => Ok(value@),
        Err(error) => Err(error),
    }
}

/// The tables as mathematical values.
pub struct Tables {
    pub users: Seq<UserRow>,
    pub messages: Seq<MessageRow>,
    /// The identifier that the next inserted message gets.
    pub next_id: u128,
    /// Whether the store answers at all.
    pub online: bool,
}

impl Tables {
    /// The constraints of the schema: identifiers and user names are unique,
    /// every message refers to existing users, carries an identifier that
    /// the store has already given out, and a status label that fits.
    pub open spec fn wf(self) -> bool {
        &&& forall|i: int, j: int|
            0 <= i < j < self.users.len() ==> (#[trigger] self.users[i]).id != (
            #[trigger] self.users[j]).id
        &&& forall|i: int, j: int|
            0 <= i < j < self.users.len() ==> (#[trigger] self.users[i]).name != (
            #[trigger] self.users[j]).name
        &&& forall|i: int, j: int|
            0 <= i < j < self.messages.len() ==> (#[trigger] self.messages[i]).id != (
            #[trigger] self.messages[j]).id
        &&& forall|i: int|
            0 <= i < self.messages.len() ==> {
                let m = #[trigger] self.messages[i];
                &&& m.id < self.next_id
                &&& m.status.len() <= STATUS_MAX_LENGTH
                &&& first_match(self.users, identified(m.sender_id)) is Some
                &&& first_match(self.users, identified(m.recipient_id)) is Some
            }
    }

    /// The answer to a lookup of a user's identity by name.
    pub open spec fn identity_by_name(self, name: Seq<char>) -> Result<Identity, StoreError> {
        if !self.online {
            Err(StoreError::Unavailable)
        } else {
            match first_match(self.users, named(name)) {
                Some(user) => Ok(user.identity()),
                None => Err(StoreError::NotFound),
            }
        }
    }

    /// The answer to a lookup of a user's identity by identifier.
    pub open spec fn identity_by_id(self, id: u128) -> Result<Identity, StoreError> {
        if !self.online {
            Err(StoreError::Unavailable)
        } else {
            match first_match(self.users, identified(id)) {
                Some(user) => Ok(user.identity()),
                None => Err(StoreError::NotFound),
            }
        }
    }

    /// The answer to a point lookup by user name and password.
    pub open spec fn credential_of(self, name: Seq<char>, password: Seq<char>) -> Result<
        Credential,
        StoreError,
    > {
        if !self.online {
            Err(StoreError::Unavailable)
        } else {
            match first_match(self.users, holding(name, password)) {
                Some(user) => Ok(user.credential()),
                None => Err(StoreError::NotFound),
            }
        }
    }
}

/// The tables of the message store, held in memory.
#[derive(Clone, Debug, PartialEq, Eq)]
pub struct Database {
    pub users: Vec<User>,
    pub messages: Vec<Message>,
    /// The identifier that the next inserted message gets.
    pub next_id: u128,
    /// Whether the store answers; a store that is offline fails every query.
    pub online: bool,
}

impl View for Database {
    type V = Tables;

    open spec fn view(&self) -> Tables {
        Tables {
            users: user_rows(self.users@),
            messages: message_rows(self.messages@),
            next_id: self.next_id,
            online: self.online,
        }
    }
}

impl Database {
    /// An empty store that is online.
    pub fn new() -> (database: Database)
        ensures
            database@.users.len() == 0,
            database@.messages.len() == 0,
            database@.next_id == 0,
            database@.online,
            database@.wf(),
    {
        Database { users: Vec::new(), messages: Vec::new(), next_id: 0, online: true }
    }

    /// The position of the first user called `name`.
    pub fn position_by_name(&self, name: &String) -> (found: Option<usize>)
        ensures
            match found {
                Some(i) => is_first_match(self@.users, named(name@), i as int) && first_match(
                    self@.users,
                    named(name@),
                ) == Some(self.users[i as int]@),
                None => first_match(self@.users, named(name@)) is None,
            },
    {
        let mut i: usize = 0;
        while i < self.users.len()
            invariant
                i <= self.users.len(),
                forall|j: int| 0 <= j < i ==> !named(name@)(#[trigger] self@.users[j]),
            decreases self.users.len() - i,
        {
            if self.users[i].name == *name {
                proof {
                    lemma_first_match_at(self@.users, named(name@), i as int);
                }
                return Some(i);
            }
            i += 1;
        }
        proof {
            lemma_first_match_none(self@.users, named(name@));
        }
        None
    }

    /// The position of the first user with identifier `id`.
    pub fn position_by_id(&self, id: crate::identifier::Identifier) -> (found: Option<usize>)
        ensures
            match found {
                Some(i) => is_first_match(self@.users, identified(id.value), i as int)
                    && first_match(self@.users, identified(id.value)) == Some(
                    self.users[i as int]@,
                ),
                None => first_match(self@.users, identified(id.value)) is None,
            },
    {
        let mut i: usize = 0;
        while i < self.users.len()
            invariant
                i <= self.users.len(),
                forall|j: int| 0 <= j < i ==> !identified(id.value)(#[trigger] self@.users[j]),
            decreases self.users.len() - i,
        {
            if self.users[i].id == id {
                proof {
                    lemma_first_match_at(self@.users, identified(id.value), i as int);
                }
                return Some(i);
            }
            i += 1;
        }
        proof {
            lemma_first_match_none(self@.users, identified(id.value));
        }
        None
    }

    /// The position of the first user called `name` whose stored password is
    /// `password`.
    pub fn position_by_credentials(&self, name: &String, password: &String) -> (found: Option<
        usize,
    >)
        ensures
            match found {
                Some(i) => is_first_match(self@.users, holding(name@, password@), i as int)
                    && first_match(self@.users, holding(name@, password@)) == Some(
                    self.users[i as int]@,
                ),
                None => first_match(self@.users, holding(name@, password@)) is None,
            },
    {
        let mut i: usize = 0;
        while i < self.users.len()
            invariant
                i <= self.users.len(),
                forall|j: int|
                    0 <= j < i ==> !holding(name@, password@)(#[trigger] self@.users[j]),
            decreases self.users.len() - i,
        {
            let user = &self.users[i];
            let accepted = match &user.password {
                Some(stored) => user.name == *name && *stored == *password,
                None => false,
            };
            if accepted {
                proof {
                    lemma_first_match_at(self@.users, holding(name@, password@), i as int);
                }
                return Some(i);
            }
            i += 1;
        }
        proof {
            lemma_first_match_none(self@.users, holding(name@, password@));
        }
        None
    }
}

} // verus!
