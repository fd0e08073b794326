//! Storage adapter for the favorites table.

use vstd::prelude::*;
use vstd::hash_map::StringHashMap;
use crate::db::integrity::lemma_article_lookup;
use crate::db::integrity::lemma_favorite_wf;
use crate::db::integrity::lemma_favorited_is_counted;
use crate::db::integrity::lemma_unfavorite_wf;
use crate::db::models::FavoriteRow;
use crate::db::store::lemma_no_duplicates_push;
use crate::db::store::lemma_to_set_push;
use crate::db::store::lemma_to_set_remove;
use crate::db::store::Store;
use crate::domain::FavoriteOutcome;
use crate::domain::StorageError;
use crate::domain::UnfavoriteOutcome;
use crate::domain::UserId;

verus! {

/// Has the user favorited the article with this slug?
pub fn is_favorite(store: &Store, user: UserId, slug: &str) -> (r: bool)
    ensures
        r == store@.is_favorite(user, slug@),
{
    store.favorite_position(user, slug).is_some()
}

/// For each of the given slugs, whether the user has favorited the article.
/// The map holds every given slug, those of articles that do not exist too.
pub fn are_favorite(store: &Store, user: UserId, slugs: Vec<&str>) -> (r: StringHashMap<bool>)
    ensures
        r@ == store@.are_favorite(user, slugs.deep_view()),
{
    let mut r: StringHashMap<bool> = StringHashMap::new();
    let mut i: usize = 0;
    while i < slugs.len()
        invariant
            i <= slugs.len(),
            r@ == store@.are_favorite(user, slugs.deep_view().take(i as int)),
        decreases slugs.len() - i,
    {
        let slug = slugs[i];
        let favorited = is_favorite(store, user, slug);
        r.insert(slug.to_owned(), favorited);
        proof {
            let before = slugs.deep_view().take(i as int);
            let after = slugs.deep_view().take(i + 1);
            assert(after =~= before.push(slug@));
            assert forall|s: Seq<char>| after.contains(s) == (before.contains(s) || s == slug@) by {
                lemma_to_set_push(before, slug@);
                assert(after.to_set().contains(s) == before.to_set().insert(slug@).contains(s));
            }
            assert(r@ =~= store@.are_favorite(user, after));
        }
        i += 1;
    }
    proof {
        assert(slugs.deep_view().take(slugs.len() as int) =~= slugs.deep_view());
        assert(store@.are_favorite(user, Seq::<Seq<char>>::empty()) =~= Map::empty());
    }
    r
}

/// Records that the user has favorited the article, and counts it on the
/// article's row at once. Favoriting twice is the same as once.
pub fn favorite(store: &mut Store, user: UserId, slug: &str) -> (r: Result<
    FavoriteOutcome,
    StorageError,
>)
    requires
        old(store).wf(),
    ensures
        final(store).wf(),
        final(store)@ == old(store)@.favorite(user, slug@),
        r == old(store)@.favorite_result(user, slug@),
{
    if store.user_position(user).is_none() {
        return Err(StorageError::ForeignKeyViolation);
    }
    let i = match store.article_position(slug) {
        Some(i) => i,
        None => {
            return Err(StorageError::ForeignKeyViolation);
        },
    };
    proof {
        lemma_article_lookup(store@, i as int);
        lemma_favorite_wf(store@, user, slug@);
    }
    let count = store.articles[i].favorites_count;
    if store.favorite_position(user, slug).is_some() {
        return Ok(FavoriteOutcome::AlreadyFavorited(count));
    }
    if count == u64::MAX {
        return Err(StorageError::OutOfRange);
    }
    let ghost pairs = store.favorites.deep_view();
    let ghost rows = store.articles.deep_view();
    store.favorites.push(FavoriteRow { user_id: user, slug: slug.to_owned() });
    store.articles[i].favorites_count = count + 1;
    proof {
        assert(store.favorites.deep_view() =~= pairs.push((user, slug@)));
        lemma_to_set_push(pairs, (user, slug@));
        lemma_no_duplicates_push(pairs, (user, slug@));
        assert(store.articles.deep_view() =~= rows.update(
            i as int,
            rows[i as int].counting((count + 1) as u64),
        ));
    }
    Ok(FavoriteOutcome::NewFavorite(count + 1))
}

/// Removes the user's favorite of the article, and takes it off the
/// article's count at once. Where the user had not favorited the article,
/// nothing changes.
pub fn unfavorite(store: &mut Store, user: UserId, slug: &str) -> (r: Result<
    UnfavoriteOutcome,
    StorageError,
>)
    requires
        old(store).wf(),
    ensures
        final(store).wf(),
        final(store)@ == old(store)@.unfavorite(user, slug@),
        r == old(store)@.unfavorite_result(user, slug@),
{
    let i = match store.article_position(slug) {
        Some(i) => i,
        None => {
            return Err(StorageError::NotFound);
        },
    };
    proof {
        lemma_article_lookup(store@, i as int);
        lemma_unfavorite_wf(store@, user, slug@);
    }
    let count = store.articles[i].favorites_count;
    let k = match store.favorite_position(user, slug) {
        Some(k) => k,
        None => {
            return Ok(UnfavoriteOutcome::WasNotFavorited(count));
        },
    };
    proof {
        lemma_favorited_is_counted(store@, user, slug@);
    }
    let ghost pairs = store.favorites.deep_view();
    let ghost rows = store.articles.deep_view();
    store.favorites.remove(k);
    store.articles[i].favorites_count = count - 1;
    proof {
        assert(store.favorites.deep_view() =~= pairs.remove(k as int));
        lemma_to_set_remove(pairs, k as int);
        assert(store.articles.deep_view() =~= rows.update(
            i as int,
            rows[i as int].counting((count - 1) as u64),
        ));
    }
    Ok(UnfavoriteOutcome::WasFavorited(count - 1))
}

} // verus!
