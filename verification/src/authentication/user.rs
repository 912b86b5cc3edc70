//! The credential store: a point lookup by user name and password.

use super::Credentials;
use crate::schema::viewed;
use crate::schema::Credential;
use crate::schema::Database;
use crate::schema::StoreError;
use vstd::prelude::*;

verus! {

/// A user as the credential check sees them: the name and the password
/// stored for it.
#[derive(Clone, Debug, PartialEq, Eq)]
pub struct ExisitingUser {
    pub name: String,
    pub password: Option<String>,
}

impl View for ExisitingUser {
    type V = Credential;

    open spec fn view(&self) -> Credential {
        Credential { name: self.name@, password: crate::schema::optional_text(self.password) }
    }
}

/// Looks up the first user whose name and stored password are exactly those
/// of `credentials`. A user without a stored password is never found. The
/// lookup fails with `NotFound` where no such user exists and with
/// `Unavailable` where the store is offline.
pub fn find_user(credentials: &Credentials, database: &Database) -> (found: Result<
    ExisitingUser,
    StoreError,
>)
    requires
        credentials.password is Some,
    ensures
        viewed(found) == database@.credential_of(
            credentials.user_id@,
            credentials.password.unwrap()@,
        ),
{
    if !database.online {
        return Err(StoreError::Unavailable);
    }
    let password = match &credentials.password {
        Some(password) => password,
        None => {
            return Err(StoreError::NotFound);
        },
    };
    match database.position_by_credentials(&credentials.user_id, password) {
        Some(i) => {
            let user = &database.users[i];
            Ok(ExisitingUser { name: user.name.clone(), password: Some(password.clone()) })
        },
        None => Err(StoreError::NotFound),
    }
}

} // verus!
