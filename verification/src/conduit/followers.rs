//! Storage adapter for the followers table.

use vstd::prelude::*;
use crate::db::integrity::lemma_follow_wf;
use crate::db::integrity::lemma_unfollow_wf;
use crate::db::models::FollowRow;
use crate::db::store::lemma_no_duplicates_push;
use crate::db::store::lemma_to_set_push;
use crate::db::store::lemma_to_set_remove;
use crate::db::store::Store;
use crate::domain::StorageError;
use crate::domain::UserId;

verus! {

/// Does `follower` follow `followed`?
pub fn is_following(store: &Store, follower: UserId, followed: UserId) -> (r: bool)
    ensures
        r == store@.is_following(follower, followed),
{
    store.follow_position(follower, followed).is_some()
}

/// Makes `follower` follow `followed`. Nobody follows themselves, and both
/// must be users of the store. Following twice is the same as once.
pub fn follow(store: &mut Store, follower: UserId, followed: UserId) -> (r: Result<
    (),
    StorageError,
>)
    requires
        old(store).wf(),
    ensures
        final(store).wf(),
        final(store)@ == old(store)@.follow(follower, followed),
        r == match old(store)@.follow_error(follower, followed) {
            Some(e) => Err::<(), StorageError>(e),
            None => Ok(()),
        },
{
    if follower == followed {
        return Err(StorageError::CheckViolation);
    }
    if store.user_position(follower).is_none() || store.user_position(followed).is_none() {
        return Err(StorageError::ForeignKeyViolation);
    }
    proof {
        lemma_follow_wf(store@, follower, followed);
    }
    if store.follow_position(follower, followed).is_some() {
        assert(store@.followers.insert((follower, followed)) =~= store@.followers);
        return Ok(());
    }
    let ghost before = store.followers.deep_view();
    store.followers.push(FollowRow { follower_id: follower, followed_id: followed });
    proof {
        assert(store.followers.deep_view() =~= before.push((follower, followed)));
        lemma_to_set_push(before, (follower, followed));
        lemma_no_duplicates_push(before, (follower, followed));
    }
    Ok(())
}

/// Makes `follower` stop following `followed`.
pub fn unfollow(store: &mut Store, follower: UserId, followed: UserId)
    requires
        old(store).wf(),
    ensures
        final(store).wf(),
        final(store)@ == old(store)@.unfollow(follower, followed),
{
    proof {
        lemma_unfollow_wf(store@, follower, followed);
    }
    match store.follow_position(follower, followed) {
        Some(i) => {
            let ghost before = store.followers.deep_view();
            store.followers.remove(i);
            proof {
                assert(store.followers.deep_view() =~= before.remove(i as int));
                lemma_to_set_remove(before, i as int);
            }
        },
        None => {
            assert(store@.followers.remove((follower, followed)) =~= store@.followers);
        },
    }
}

} // verus!
