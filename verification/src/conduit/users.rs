//! Storage adapter for the users table.

use vstd::prelude::*;
use crate::db::integrity::lemma_register_wf;
use crate::db::integrity::lemma_user_lookup;
use crate::db::models::UserRow;
use crate::db::store::Store;
use crate::domain::StorageError;
use crate::domain::UserId;

verus! {

/// Registers a user. Identity, username and email must each be new to the
/// table.
pub fn insert(store: &mut Store, user: UserRow) -> (r: Result<(), StorageError>)
    requires
        old(store).wf(),
    ensures
        final(store).wf(),
        final(store)@ == old(store)@.register(user@),
        r == match old(store)@.register_error(user@) {
            Some(e) => Err::<(), StorageError>(e),
            None => Ok(()),
        },
{
    if store.user_position(user.id).is_some() {
        return Err(StorageError::UniqueViolation);
    }
    if store.username_position(user.username.as_str()).is_some() {
        return Err(StorageError::UniqueViolation);
    }
    if store.email_position(user.email.as_str()).is_some() {
        return Err(StorageError::UniqueViolation);
    }
    proof {
        lemma_register_wf(store@, user@);
    }
    let ghost row = user@;
    store.users.push(user);
    proof {
        assert(store@.users =~= old(store)@.users.push(row));
    }
    Ok(())
}

/// The user with this identity.
pub fn find(store: &Store, id: UserId) -> (r: Result<UserRow, StorageError>)
    requires
        store.wf(),
    ensures
        match r {
            Ok(row) => store@.user_by_id(id) == Some(row@),
            Err(e) => e == StorageError::NotFound && store@.user_by_id(id) is None,
        },
{
    match store.user_position(id) {
        Some(i) => {
            proof {
                lemma_user_lookup(store@, i as int);
            }
            Ok(store.users[i].clone())
        },
        None => Err(StorageError::NotFound),
    }
}

/// The user with this username.
pub fn find_by_username(store: &Store, username: &str) -> (r: Result<UserRow, StorageError>)
    requires
        store.wf(),
    ensures
        match r {
            Ok(row) => store@.user_by_username(username@) == Some(row@),
            Err(e) => e == StorageError::NotFound && store@.user_by_username(username@) is None,
        },
{
    match store.username_position(username) {
        Some(i) => {
            proof {
                lemma_user_lookup(store@, i as int);
            }
            Ok(store.users[i].clone())
        },
        None => Err(StorageError::NotFound),
    }
}

} // verus!
