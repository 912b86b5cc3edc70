//! The recipient of a message, as the `users` table knows them.

use crate::identifier::Identifier;
use crate::schema::viewed;
use crate::schema::Database;
use crate::schema::Identity;
use crate::schema::StoreError;
use vstd::prelude::*;

verus! {

/// The identity of the user a message is addressed to.
#[derive(Clone, Debug, PartialEq, Eq)]
pub struct Recipient {
    pub id: Identifier,
    pub name: String,
}

impl View for Recipient {
    type V = Identity;

    open spec fn view(&self) -> Identity {
        Identity { id: self.id.value, name: self.name@ }
    }
}

/// Looks a recipient up by name: the first user called `username`,
/// `NotFound` where there is none, `Unavailable` where the store is offline.
pub fn get_recipient_by_name(username: &str, database: &Database) -> (found: Result<
    Recipient,
    StoreError,
>)
    ensures
        viewed(found) == database@.identity_by_name(username@),
{
    if !database.online {
        return Err(StoreError::Unavailable);
    }
    let name = username.to_owned();
    match database.position_by_name(&name) {
        Some(i) => {
            let user = &database.users[i];
            Ok(Recipient { id: user.id, name: user.name.clone() })
        },
        None => Err(StoreError::NotFound),
    }
}

} // verus!
