//! The sender of a message, as the `users` table knows them.

use crate::identifier::Identifier;
use crate::schema::viewed;
use crate::schema::Database;
use crate::schema::Identity;
use crate::schema::StoreError;
use vstd::prelude::*;

verus! {

/// The identity of the user who sent a message.
#[derive(Debug, PartialEq, Eq)]
pub struct Sender {
    pub id: Identifier,
    pub name: String,
}

impl View for Sender {
    type V = Identity;

    open spec fn view(&self) -> Identity {
        Identity { id: self.id.value, name: self.name@ }
    }
}

impl Clone for Sender {
    fn clone(&self) -> (copy: Self)
        ensures
            copy == *self,
    {
        Sender { id: self.id, name: self.name.clone() }
    }
}

/// Looks a sender up by identifier: the first user with that identifier,
/// `NotFound` where there is none, `Unavailable` where the store is offline.
pub fn select_sender(uuid: Identifier, database: &Database) -> (found: Result<Sender, StoreError>)
    ensures
        viewed(found) == database@.identity_by_id(uuid.value),
{
    if !database.online {
        return Err(StoreError::Unavailable);
    }
    match database.position_by_id(uuid) {
        Some(i) => {
            let user = &database.users[i];
            Ok(Sender { id: user.id, name: user.name.clone() })
        },
        None => Err(StoreError::NotFound),
    }
}

/// Looks a sender up by name: the first user called `username`, `NotFound`
/// where there is none, `Unavailable` where the store is offline.
pub fn get_sender_by_name(username: &str, database: &Database) -> (found: Result<
    Sender,
    StoreError,
>)
    ensures
        viewed(found) == database@.identity_by_name(username@),
{
    if !database.online {
        return Err(StoreError::Unavailable);
    }
    let name = username.to_owned();
    match database.position_by_name(&name) {
        Some(i) => {
            let user = &database.users[i];
            Ok(Sender { id: user.id, name: user.name.clone() })
        },
        None => Err(StoreError::NotFound),
    }
}

} // verus!
