//! Laws that relate the operations of the repository to each other.

use vstd::prelude::*;
use crate::conduit::articles::lemma_matching_step;
use crate::domain::repositories::after_publish;
use crate::domain::repositories::article_by_slug;
use crate::domain::repositories::favorited;
use crate::domain::repositories::listing;
use crate::domain::repositories::profile_view;
use crate::domain::repositories::published;
use crate::db::integrity::lemma_article_found;
use crate::db::integrity::lemma_article_lookup;
use crate::db::integrity::lemma_delete_article_wf;
use crate::db::integrity::lemma_favorite_wf;
use crate::db::integrity::lemma_favorited_is_counted;
use crate::db::integrity::lemma_insert_article_wf;
use crate::db::integrity::lemma_same_slugs;
use crate::db::integrity::lemma_same_users;
use crate::db::integrity::lemma_slot;
use crate::db::integrity::lemma_update_article_wf;
use crate::db::integrity::lemma_user_lookup;
use crate::db::models::ArticleRecord;
use crate::db::models::NewArticleRecord;
use crate::db::models::UserRecord;
use crate::db::state::comes_before;
use crate::db::state::StoreState;
use crate::domain::ArticleContentModel;
use crate::domain::ArticleModel;
use crate::domain::ArticleQueryModel;
use crate::domain::ArticleUpdateModel;
use crate::domain::DatabaseError;
use crate::domain::FavoriteOutcome;
use crate::domain::GetArticleError;
use crate::domain::UserId;
use crate::domain::UserModel;

verus! {

/// An article that has just been published is what its slug finds,
/// provided that the author handed to `publish` is the user as the store
/// holds them.
pub proof fn lemma_publish_then_get_by_slug(
    s: StoreState,
    draft: ArticleContentModel,
    author: UserModel,
)
    requires
        s.wf(),
        s.user_by_id(author.id) == Some(UserRecord::of(author)),
        published(s, draft, author) is Ok,
    ensures
        article_by_slug(after_publish(s, draft, author), published(s, draft, author).unwrap().slug)
            == Ok::<ArticleModel, GetArticleError>(published(s, draft, author).unwrap()),
{
    let new = NewArticleRecord::of(draft, author);
    let row = new.row_at(s.clock);
    let t = after_publish(s, draft, author);
    lemma_insert_article_wf(s, new);
    lemma_slot(s, row);
    let p = s.slot(row);
    s.articles.insert_ensures(p, row);
    lemma_article_lookup(t, p);
    lemma_same_users(s, t);
    assert(t.entity(row) =~= published(s, draft, author).unwrap());
}

/// To favorite twice is the same as once: the second request changes
/// nothing and, where the first went through, finds the article already
/// favorited, with the count that the first left.
pub proof fn lemma_favorite_idempotent(s: StoreState, user: UserId, slug: Seq<char>)
    requires
        s.wf(),
    ensures
        s.favorite(user, slug).favorite(user, slug) == s.favorite(user, slug),
        favorited(s, user, slug) matches Ok(first) ==> favorited(s.favorite(user, slug), user, slug)
            == Ok::<FavoriteOutcome, DatabaseError>(FavoriteOutcome::AlreadyFavorited(first.count())),
{
    let t = s.favorite(user, slug);
    lemma_favorite_wf(s, user, slug);
    if let Ok(FavoriteOutcome::NewFavorite(n)) = s.favorite_result(user, slug) {
        lemma_article_found(s, slug);
        let i = s.article_index(slug);
        lemma_same_users(s, t);
        lemma_same_slugs(s, t);
        lemma_article_lookup(t, i);
    }
}

/// To favorite and then unfavorite leaves the user without a favorite of
/// the article; where there was none before, it leaves the store as it
/// was, the article's count included.
pub proof fn lemma_favorite_then_unfavorite(s: StoreState, user: UserId, slug: Seq<char>)
    requires
        s.wf(),
    ensures
        !s.favorite(user, slug).unfavorite(user, slug).is_favorite(user, slug),
        !s.is_favorite(user, slug) ==> s.favorite(user, slug).unfavorite(user, slug) == s,
{
    let t = s.favorite(user, slug);
    let u = t.unfavorite(user, slug);
    lemma_favorite_wf(s, user, slug);
    if t.is_favorite(user, slug) {
        lemma_favorited_is_counted(t, user, slug);
        lemma_article_found(t, slug);
    }
    if !s.is_favorite(user, slug) {
        if let Ok(FavoriteOutcome::NewFavorite(n)) = s.favorite_result(user, slug) {
            lemma_article_found(s, slug);
            let i = s.article_index(slug);
            lemma_same_users(s, t);
            lemma_same_slugs(s, t);
            lemma_article_lookup(t, i);
            assert(u.articles =~= s.articles);
            assert(u.favorites =~= s.favorites);
        }
    }
}

/// Once an article is deleted, nobody has it as a favorite and its slug
/// finds nothing.
pub proof fn lemma_delete_cascades(s: StoreState, slug: Seq<char>)
    requires
        s.wf(),
    ensures
        forall|u: UserId| !s.delete_article(slug).is_favorite(u, slug),
        article_by_slug(s.delete_article(slug), slug) == Err::<ArticleModel, GetArticleError>(
            GetArticleError::NotFound,
        ),
{
    let t = s.delete_article(slug);
    lemma_delete_article_wf(s, slug);
    assert forall|u: UserId| !t.is_favorite(u, slug) by {
        if s.has_article(slug) {
        } else if s.favorites.contains((u, slug)) {
            assert(s.has_article(slug));
        }
    }
}

/// After a follow that went through, the follower is told that they
/// follow the profile.
pub proof fn lemma_follow_then_view(s: StoreState, follower: UserId, followed: UserId)
    requires
        s.wf(),
        s.follow_error(follower, followed) is None,
    ensures
        s.follow(follower, followed).user_by_id(followed) matches Some(u) && profile_view(
            s.follow(follower, followed),
            follower,
            u.username,
        ) matches Ok(v) && v.following && v.profile == u.profile(),
{
    let t = s.follow(follower, followed);
    lemma_same_users(s, t);
    let i = choose|i: int| s.user_at(i, followed);
    lemma_user_lookup(s, i);
}

/// A patch leaves an article its slug, its author, its time of creation
/// and its count of favorites; it is then updated at the time on the
/// clock, which is not before it was created.
pub proof fn lemma_update_keeps_identity(
    s: StoreState,
    slug: Seq<char>,
    update: ArticleUpdateModel,
)
    requires
        s.wf(),
        s.has_article(slug),
    ensures
        s.article_by_slug(slug) matches Some(before) && s.update_article(
            slug,
            update,
        ).article_by_slug(slug) matches Some(after) && {
            &&& after == before.patched(update, s.clock)
            &&& after.slug == slug
            &&& after.author_id == before.author_id
            &&& after.favorites_count == before.favorites_count
            &&& after.created_at == before.created_at
            &&& after.created_at <= after.updated_at
            &&& before.updated_at <= after.updated_at
            &&& after.updated_at == s.clock
        },
{
    let t = s.update_article(slug, update);
    lemma_article_found(s, slug);
    let i = s.article_index(slug);
    assert(s.article_sound(s.articles[i]));
    lemma_update_article_wf(s, slug, update);
    lemma_article_lookup(t, i);
}

/// Nobody follows themselves: a user of the store who looks at their own
/// profile is not told that they follow it.
pub proof fn lemma_own_profile_not_followed(s: StoreState, viewer: UserModel)
    requires
        s.wf(),
        s.user_by_id(viewer.id) matches Some(u) && u.username == viewer.profile.username,
    ensures
        profile_view(s, viewer.id, viewer.profile.username) matches Ok(v) && !v.following,
{
    let i = choose|i: int| s.user_at(i, viewer.id);
    lemma_user_lookup(s, i);
}

/// The count that an article's row holds is the number of users who have
/// favorited the article.
pub proof fn lemma_count_is_number_of_fans(s: StoreState, slug: Seq<char>)
    requires
        s.wf(),
    ensures
        s.fans(slug).finite(),
        s.favorites_count(slug) == s.fans(slug).len(),
{
    if s.has_article(slug) {
        lemma_article_found(s, slug);
        assert(s.article_sound(s.articles[s.article_index(slug)]));
    } else {
        assert(s.fans(slug) =~= Set::empty()) by {
            assert forall|u: UserId| !s.favorites.contains((u, slug)) by {
                if s.favorites.contains((u, slug)) {
                    assert(s.has_article(slug));
                }
            }
        }
    }
}

/// Those of `rows` that pass a query's filters stand among `rows`, in the
/// order in which `rows` holds them.
proof fn lemma_matching_ordered(s: StoreState, rows: Seq<ArticleRecord>, query: ArticleQueryModel)
    requires
        forall|i: int, j: int|
            0 <= i < j < rows.len() ==> comes_before(#[trigger] rows[i], #[trigger] rows[j]),
    ensures
        forall|k: int|
            0 <= k < s.matching_in(rows, query).len() ==> {
                &&& rows.contains(#[trigger] s.matching_in(rows, query)[k])
                &&& s.matches(query, s.matching_in(rows, query)[k])
            },
        forall|i: int, j: int|
            0 <= i < j < s.matching_in(rows, query).len() ==> comes_before(
                #[trigger] s.matching_in(rows, query)[i],
                #[trigger] s.matching_in(rows, query)[j],
            ),
    decreases rows.len(),
{
    lemma_matching_step(s, rows, query);
    if rows.len() > 0 {
        let front = rows.drop_last();
        lemma_matching_ordered(s, front, query);
        let some = s.matching_in(front, query);
        let all = s.matching_in(rows, query);
        assert forall|k: int| 0 <= k < all.len() implies {
            &&& rows.contains(#[trigger] all[k])
            &&& s.matches(query, all[k])
        } by {
            if k < some.len() {
                assert(front.contains(some[k]));
                let m = choose|m: int| 0 <= m < front.len() && front[m] == some[k];
                assert(rows[m] == all[k]);
            } else {
                assert(rows[rows.len() - 1] == all[k]);
            }
        }
        assert forall|i: int, j: int| 0 <= i < j < all.len() implies comes_before(
            #[trigger] all[i],
            #[trigger] all[j],
        ) by {
            if j < some.len() {
                assert(comes_before(some[i], some[j]));
            } else {
                assert(front.contains(some[i]));
                let m = choose|m: int| 0 <= m < front.len() && front[m] == some[i];
                assert(comes_before(rows[m], rows[rows.len() - 1]));
            }
        }
    }
}

/// A listing holds no more articles than the query's limit, each of them
/// an article of the store that passes the query's filters, and it is in
/// order: newest first, and by ascending slug among those created at the
/// same instant.
pub proof fn lemma_listing_ordered(s: StoreState, query: ArticleQueryModel)
    requires
        s.wf(),
    ensures
        listing(s, query).len() == s.page(query).len(),
        s.page(query).len() <= query.page_limit(),
        forall|k: int|
            0 <= k < s.page(query).len() ==> {
                &&& s.articles.contains(#[trigger] s.page(query)[k])
                &&& s.matches(query, s.page(query)[k])
                &&& listing(s, query)[k] == s.entity(s.page(query)[k])
            },
        forall|i: int, j: int|
            0 <= i < j < s.page(query).len() ==> comes_before(
                #[trigger] s.page(query)[i],
                #[trigger] s.page(query)[j],
            ),
{
    lemma_matching_ordered(s, s.articles, query);
}

} // verus!
