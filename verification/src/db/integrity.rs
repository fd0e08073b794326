//! Proofs that every operation of the store keeps its integrity rules.

use vstd::prelude::*;
use crate::db::models::ArticleRecord;
use crate::db::models::NewArticleRecord;
use crate::db::models::UserRecord;
use crate::db::state::comes_before;
use crate::db::state::StoreState;
use crate::domain::ArticleUpdateModel;
use crate::domain::FavoriteOutcome;
use crate::domain::Timestamp;
use crate::domain::UnfavoriteOutcome;
use crate::domain::UserId;
use crate::text::lemma_text_lt_irreflexive;
use crate::text::lemma_text_lt_total;
use crate::text::lemma_text_lt_transitive;

verus! {

/// A user's row is what both of its keys find.
pub proof fn lemma_user_lookup(s: StoreState, i: int)
    requires
        s.users_distinct(),
        0 <= i < s.users.len(),
    ensures
        s.has_user(s.users[i].id),
        s.user_by_id(s.users[i].id) == Some(s.users[i]),
        s.has_username(s.users[i].username),
        s.user_by_username(s.users[i].username) == Some(s.users[i]),
        s.has_email(s.users[i].email),
{
    assert(s.user_at(i, s.users[i].id));
    assert(s.named_at(i, s.users[i].username));
    assert(s.mailed_at(i, s.users[i].email));
    let a = choose|k: int| s.user_at(k, s.users[i].id);
    let b = choose|k: int| s.named_at(k, s.users[i].username);
    assert(a == i) by {
        if a < i {
            assert(s.users[a].id != s.users[i].id);
        } else if i < a {
            assert(s.users[i].id != s.users[a].id);
        }
    }
    assert(b == i) by {
        if b < i {
            assert(s.users[b].username != s.users[i].username);
        } else if i < b {
            assert(s.users[i].username != s.users[b].username);
        }
    }
}

/// An article's row is what its slug finds.
pub proof fn lemma_article_lookup(s: StoreState, i: int)
    requires
        s.articles_listed(),
        0 <= i < s.articles.len(),
    ensures
        s.has_article(s.articles[i].slug),
        s.article_index(s.articles[i].slug) == i,
        s.article_by_slug(s.articles[i].slug) == Some(s.articles[i]),
        s.favorites_count(s.articles[i].slug) == s.articles[i].favorites_count,
{
    assert(s.article_at(i, s.articles[i].slug));
    let a = s.article_index(s.articles[i].slug);
    assert(a == i) by {
        if a < i {
            assert(s.articles[a].slug != s.articles[i].slug);
        } else if i < a {
            assert(s.articles[i].slug != s.articles[a].slug);
        }
    }
}

/// The slug of an article that exists finds a row with that slug.
pub proof fn lemma_article_found(s: StoreState, slug: Seq<char>)
    requires
        s.articles_listed(),
        s.has_article(slug),
    ensures
        0 <= s.article_index(slug) < s.articles.len(),
        s.articles[s.article_index(slug)].slug == slug,
        s.article_by_slug(slug) == Some(s.articles[s.article_index(slug)]),
{
    let i = choose|i: int| s.article_at(i, slug);
    assert(s.article_at(i, slug));
}

/// The empty store keeps the integrity rules.
pub proof fn lemma_empty_wf()
    ensures
        StoreState::empty().wf(),
{
    let s = StoreState::empty();
    assert forall|u: UserId, sl: Seq<char>| #[trigger]
        s.favorites.contains((u, sl)) implies s.has_user(u) && s.has_article(sl) by {}
}

/// Hands on what holds of users from one state to another with the same
/// users table.
pub proof fn lemma_same_users(s: StoreState, t: StoreState)
    requires
        s.users_distinct(),
        t.users == s.users,
    ensures
        forall|id: UserId| s.has_user(id) == t.has_user(id),
        forall|id: UserId| s.user_by_id(id) == t.user_by_id(id),
        forall|name: Seq<char>| s.user_by_username(name) == t.user_by_username(name),
{
    assert forall|id: UserId| s.has_user(id) == t.has_user(id) by {
        if s.has_user(id) {
            let i = choose|i: int| s.user_at(i, id);
            assert(t.user_at(i, id));
        }
        if t.has_user(id) {
            let i = choose|i: int| t.user_at(i, id);
            assert(s.user_at(i, id));
        }
    }
    assert forall|id: UserId| s.user_by_id(id) == t.user_by_id(id) by {
        if s.has_user(id) {
            let i = choose|i: int| s.user_at(i, id);
            let j = choose|i: int| t.user_at(i, id);
            assert(s.user_at(j, id));
            lemma_user_lookup(s, i);
            lemma_user_lookup(s, j);
        }
    }
    assert forall|name: Seq<char>| s.user_by_username(name) == t.user_by_username(name) by {
        if s.has_username(name) {
            let i = choose|i: int| s.named_at(i, name);
            assert(t.named_at(i, name));
            let j = choose|i: int| t.named_at(i, name);
            assert(s.named_at(j, name));
            lemma_user_lookup(s, i);
            lemma_user_lookup(s, j);
        } else if t.has_username(name) {
            let j = choose|i: int| t.named_at(i, name);
            assert(s.named_at(j, name));
        }
    }
}

/// Hands on which articles exist from one state to another whose articles
/// table has the same slugs at the same places.
pub proof fn lemma_same_slugs(s: StoreState, t: StoreState)
    requires
        s.articles_listed(),
        t.articles.len() == s.articles.len(),
        forall|i: int| 0 <= i < s.articles.len() ==> t.articles[i].slug == s.articles[i].slug,
    ensures
        forall|slug: Seq<char>| s.has_article(slug) == t.has_article(slug),
        forall|slug: Seq<char>| s.has_article(slug) ==> s.article_index(slug) == t.article_index(slug),
{
    assert forall|slug: Seq<char>| s.has_article(slug) == t.has_article(slug) by {
        if s.has_article(slug) {
            let i = choose|i: int| s.article_at(i, slug);
            assert(t.article_at(i, slug));
        }
        if t.has_article(slug) {
            let i = choose|i: int| t.article_at(i, slug);
            assert(s.article_at(i, slug));
        }
    }
    assert forall|slug: Seq<char>| s.has_article(slug) implies s.article_index(slug)
        == t.article_index(slug) by {
        if s.has_article(slug) {
            let i = s.article_index(slug);
            let j = t.article_index(slug);
            assert(s.article_at(i, slug));
            assert(t.article_at(i, slug));
            assert(t.article_at(j, slug));
            lemma_article_lookup(s, i);
            lemma_article_lookup(s, j);
        }
    }
}

/// Advancing the clock keeps the integrity rules.
pub proof fn lemma_advance_clock_wf(s: StoreState, now: Timestamp)
    requires
        s.wf(),
    ensures
        s.advance_clock(now).wf(),
{
    let t = s.advance_clock(now);
    lemma_same_users(s, t);
    lemma_same_slugs(s, t);
    assert forall|i: int| 0 <= i < t.articles.len() implies t.article_sound(
        #[trigger] t.articles[i],
    ) by {
        assert(s.article_sound(s.articles[i]));
        assert(t.fans(t.articles[i].slug) =~= s.fans(s.articles[i].slug));
    }
}

/// Registering a user keeps the integrity rules.
pub proof fn lemma_register_wf(s: StoreState, user: UserRecord)
    requires
        s.wf(),
    ensures
        s.register(user).wf(),
{
    let t = s.register(user);
    if s.register_error(user) is None {
        assert forall|id: UserId| s.has_user(id) implies t.has_user(id) by {
            let i = choose|i: int| s.user_at(i, id);
            assert(t.user_at(i, id));
        }
        lemma_same_slugs(s, t);
        assert forall|i: int, j: int| 0 <= i < j < t.users.len() implies {
            &&& (#[trigger] t.users[i]).id != (#[trigger] t.users[j]).id
            &&& t.users[i].username != t.users[j].username
            &&& t.users[i].email != t.users[j].email
        } by {
            if j == s.users.len() {
                assert(!s.user_at(i, user.id));
                assert(!s.named_at(i, user.username));
                assert(!s.mailed_at(i, user.email));
            } else {
                assert(s.users[i].id != s.users[j].id);
            }
        }
        assert forall|i: int| 0 <= i < t.articles.len() implies t.article_sound(
            #[trigger] t.articles[i],
        ) by {
            assert(s.article_sound(s.articles[i]));
            assert(t.fans(t.articles[i].slug) =~= s.fans(s.articles[i].slug));
        }
    }
}

/// Following keeps the integrity rules.
pub proof fn lemma_follow_wf(s: StoreState, follower: UserId, followed: UserId)
    requires
        s.wf(),
    ensures
        s.follow(follower, followed).wf(),
{
    let t = s.follow(follower, followed);
    lemma_same_users(s, t);
    lemma_same_slugs(s, t);
    assert forall|i: int| 0 <= i < t.articles.len() implies t.article_sound(
        #[trigger] t.articles[i],
    ) by {
        assert(s.article_sound(s.articles[i]));
        assert(t.fans(t.articles[i].slug) =~= s.fans(s.articles[i].slug));
    }
}

/// Unfollowing keeps the integrity rules.
pub proof fn lemma_unfollow_wf(s: StoreState, follower: UserId, followed: UserId)
    requires
        s.wf(),
    ensures
        s.unfollow(follower, followed).wf(),
{
    let t = s.unfollow(follower, followed);
    lemma_same_users(s, t);
    lemma_same_slugs(s, t);
    assert forall|i: int| 0 <= i < t.articles.len() implies t.article_sound(
        #[trigger] t.articles[i],
    ) by {
        assert(s.article_sound(s.articles[i]));
        assert(t.fans(t.articles[i].slug) =~= s.fans(s.articles[i].slug));
    }
}


/// Favoriting keeps the integrity rules.
pub proof fn lemma_favorite_wf(s: StoreState, user: UserId, slug: Seq<char>)
    requires
        s.wf(),
    ensures
        s.favorite(user, slug).wf(),
{
    let t = s.favorite(user, slug);
    if let Ok(FavoriteOutcome::NewFavorite(n)) = s.favorite_result(user, slug) {
        lemma_article_found(s, slug);
        let i = s.article_index(slug);
        lemma_same_users(s, t);
        lemma_same_slugs(s, t);
        assert forall|a: int, b: int| 0 <= a < b < t.articles.len() implies {
            &&& comes_before(#[trigger] t.articles[a], #[trigger] t.articles[b])
            &&& t.articles[a].slug != t.articles[b].slug
        } by {
            assert(comes_before(s.articles[a], s.articles[b]));
        }
        assert forall|k: int| 0 <= k < t.articles.len() implies t.article_sound(
            #[trigger] t.articles[k],
        ) by {
            assert(s.article_sound(s.articles[k]));
            if k == i {
                assert(t.fans(slug) =~= s.fans(slug).insert(user));
            } else {
                lemma_article_lookup(s, k);
                assert(t.fans(t.articles[k].slug) =~= s.fans(s.articles[k].slug));
            }
        }
        assert forall|u: UserId, sl: Seq<char>| #[trigger]
            t.favorites.contains((u, sl)) implies t.has_user(u) && t.has_article(sl) by {
            if (u, sl) != (user, slug) {
                assert(s.favorites.contains((u, sl)));
            }
        }
    }
}

/// Unfavoriting keeps the integrity rules.
pub proof fn lemma_unfavorite_wf(s: StoreState, user: UserId, slug: Seq<char>)
    requires
        s.wf(),
    ensures
        s.unfavorite(user, slug).wf(),
{
    let t = s.unfavorite(user, slug);
    if let Ok(UnfavoriteOutcome::WasFavorited(n)) = s.unfavorite_result(user, slug) {
        lemma_article_found(s, slug);
        let i = s.article_index(slug);
        lemma_same_users(s, t);
        lemma_same_slugs(s, t);
        assert forall|a: int, b: int| 0 <= a < b < t.articles.len() implies {
            &&& comes_before(#[trigger] t.articles[a], #[trigger] t.articles[b])
            &&& t.articles[a].slug != t.articles[b].slug
        } by {
            assert(comes_before(s.articles[a], s.articles[b]));
        }
        assert forall|k: int| 0 <= k < t.articles.len() implies t.article_sound(
            #[trigger] t.articles[k],
        ) by {
            assert(s.article_sound(s.articles[k]));
            if k == i {
                assert(s.fans(slug).contains(user));
                assert(t.fans(slug) =~= s.fans(slug).remove(user));
            } else {
                lemma_article_lookup(s, k);
                assert(t.fans(t.articles[k].slug) =~= s.fans(s.articles[k].slug));
            }
        }
        assert forall|u: UserId, sl: Seq<char>| #[trigger]
            t.favorites.contains((u, sl)) implies t.has_user(u) && t.has_article(sl) by {
            assert(s.favorites.contains((u, sl)));
        }
    }
}

/// Under the integrity rules the count of an article that a user has
/// favorited is at least 1.
pub proof fn lemma_favorited_is_counted(s: StoreState, user: UserId, slug: Seq<char>)
    requires
        s.wf(),
        s.is_favorite(user, slug),
    ensures
        s.has_article(slug),
        s.has_user(user),
        s.favorites_count(slug) >= 1,
{
    lemma_article_found(s, slug);
    let i = s.article_index(slug);
    assert(s.article_sound(s.articles[i]));
    assert(s.fans(slug).contains(user));
    if s.fans(slug).len() == 0 {
        assert(s.fans(slug) =~= Set::empty());
    }
}

/// The listing order is transitive.
pub proof fn lemma_comes_before_transitive(a: ArticleRecord, b: ArticleRecord, c: ArticleRecord)
    requires
        comes_before(a, b),
        comes_before(b, c),
    ensures
        comes_before(a, c),
{
    if a.created_at == b.created_at && b.created_at == c.created_at {
        lemma_text_lt_transitive(a.slug, b.slug, c.slug);
    }
}

/// Of two articles with different slugs one comes before the other.
pub proof fn lemma_comes_before_total(a: ArticleRecord, b: ArticleRecord)
    requires
        a.slug != b.slug,
    ensures
        comes_before(a, b) || comes_before(b, a),
{
    lemma_text_lt_total(a.slug, b.slug);
}

/// No two articles come before each other.
pub proof fn lemma_comes_before_asymmetric(a: ArticleRecord, b: ArticleRecord)
    requires
        comes_before(a, b),
    ensures
        !comes_before(b, a),
{
    if comes_before(b, a) {
        lemma_text_lt_transitive(a.slug, b.slug, a.slug);
        lemma_text_lt_irreflexive(a.slug);
    }
}

/// Among the first `n` articles, the first that does not come before
/// `row`; `n` where there is none.
proof fn lemma_first_not_before(s: StoreState, row: ArticleRecord, n: int) -> (p: int)
    requires
        0 <= n <= s.articles.len(),
    ensures
        0 <= p <= n,
        forall|j: int| 0 <= j < p ==> comes_before(#[trigger] s.articles[j], row),
        p < n ==> !comes_before(s.articles[p], row),
    decreases n,
{
    if n == 0 {
        0
    } else {
        let p = lemma_first_not_before(s, row, n - 1);
        if p < n - 1 {
            p
        } else if comes_before(s.articles[n - 1], row) {
            n
        } else {
            n - 1
        }
    }
}

/// A row whose slug is not taken has exactly one place in the listing.
pub proof fn lemma_slot(s: StoreState, row: ArticleRecord)
    requires
        s.articles_listed(),
        !s.has_article(row.slug),
    ensures
        s.is_slot(row, s.slot(row)),
        forall|p: int| s.is_slot(row, p) ==> p == s.slot(row),
{
    let p = lemma_first_not_before(s, row, s.articles.len() as int);
    assert(s.is_slot(row, p)) by {
        assert forall|j: int| p <= j < s.articles.len() implies comes_before(
            row,
            #[trigger] s.articles[j],
        ) by {
            assert(!s.article_at(p, row.slug));
            lemma_comes_before_total(s.articles[p], row);
            if p < j {
                assert(comes_before(s.articles[p], s.articles[j]));
                lemma_comes_before_transitive(row, s.articles[p], s.articles[j]);
            }
        }
    }
    let q = s.slot(row);
    assert forall|r: int| s.is_slot(row, r) implies r == q by {
        if r < q {
            assert(comes_before(row, s.articles[r]));
            assert(comes_before(s.articles[r], row));
            lemma_comes_before_asymmetric(row, s.articles[r]);
        } else if q < r {
            assert(comes_before(row, s.articles[q]));
            assert(comes_before(s.articles[q], row));
            lemma_comes_before_asymmetric(row, s.articles[q]);
        }
    }
}

/// Inserting an article keeps the integrity rules.
pub proof fn lemma_insert_article_wf(s: StoreState, new: NewArticleRecord)
    requires
        s.wf(),
    ensures
        s.insert_article(new).wf(),
{
    let t = s.insert_article(new);
    if s.insert_error(new) is None {
        let row = new.row_at(s.clock);
        lemma_slot(s, row);
        let p = s.slot(row);
        s.articles.insert_ensures(p, row);
        lemma_same_users(s, t);
        assert forall|a: int, b: int| 0 <= a < b < t.articles.len() implies {
            &&& comes_before(#[trigger] t.articles[a], #[trigger] t.articles[b])
            &&& t.articles[a].slug != t.articles[b].slug
        } by {
            if a == p {
                assert(t.articles[b] == s.articles[b - 1]);
                assert(!s.article_at(b - 1, row.slug));
            } else if b == p {
                assert(t.articles[a] == s.articles[a]);
                assert(!s.article_at(a, row.slug));
            } else {
                let a0 = if a < p { a } else { a - 1 };
                let b0 = if b < p { b } else { b - 1 };
                assert(t.articles[a] == s.articles[a0]);
                assert(t.articles[b] == s.articles[b0]);
                assert(comes_before(s.articles[a0], s.articles[b0]));
            }
        }
        assert forall|sl: Seq<char>| s.has_article(sl) implies t.has_article(sl) by {
            let k = choose|k: int| s.article_at(k, sl);
            if k < p {
                assert(t.article_at(k, sl));
            } else {
                assert(t.articles[k + 1] == s.articles[k]);
                assert(t.article_at(k + 1, sl));
            }
        }
        assert forall|k: int| 0 <= k < t.articles.len() implies t.article_sound(
            #[trigger] t.articles[k],
        ) by {
            if k == p {
                assert(t.fans(row.slug) =~= Set::empty()) by {
                    assert forall|u: UserId| !s.favorites.contains((u, row.slug)) by {
                        if s.favorites.contains((u, row.slug)) {
                            assert(s.has_article(row.slug));
                        }
                    }
                }
            } else {
                let k0 = if k < p { k } else { k - 1 };
                assert(t.articles[k] == s.articles[k0]);
                assert(s.article_sound(s.articles[k0]));
                assert(t.fans(t.articles[k].slug) =~= s.fans(s.articles[k0].slug));
            }
        }
        assert forall|u: UserId, sl: Seq<char>| #[trigger]
            t.favorites.contains((u, sl)) implies t.has_user(u) && t.has_article(sl) by {
            assert(s.favorites.contains((u, sl)));
        }
    }
}

/// Patching an article keeps the integrity rules.
pub proof fn lemma_update_article_wf(s: StoreState, slug: Seq<char>, update: ArticleUpdateModel)
    requires
        s.wf(),
    ensures
        s.update_article(slug, update).wf(),
{
    let t = s.update_article(slug, update);
    if s.has_article(slug) {
        lemma_article_found(s, slug);
        let i = s.article_index(slug);
        lemma_same_users(s, t);
        lemma_same_slugs(s, t);
        assert forall|a: int, b: int| 0 <= a < b < t.articles.len() implies {
            &&& comes_before(#[trigger] t.articles[a], #[trigger] t.articles[b])
            &&& t.articles[a].slug != t.articles[b].slug
        } by {
            assert(comes_before(s.articles[a], s.articles[b]));
        }
        assert forall|k: int| 0 <= k < t.articles.len() implies t.article_sound(
            #[trigger] t.articles[k],
        ) by {
            assert(s.article_sound(s.articles[k]));
            assert(t.fans(t.articles[k].slug) =~= s.fans(s.articles[k].slug));
        }
        assert forall|u: UserId, sl: Seq<char>| #[trigger]
            t.favorites.contains((u, sl)) implies t.has_user(u) && t.has_article(sl) by {
            assert(s.favorites.contains((u, sl)));
        }
    }
}

/// Deleting an article keeps the integrity rules, and the article is gone.
pub proof fn lemma_delete_article_wf(s: StoreState, slug: Seq<char>)
    requires
        s.wf(),
    ensures
        s.delete_article(slug).wf(),
        !s.delete_article(slug).has_article(slug),
{
    let t = s.delete_article(slug);
    if s.has_article(slug) {
        lemma_article_found(s, slug);
        let i = s.article_index(slug);
        s.articles.remove_ensures(i);
        lemma_same_users(s, t);
        assert forall|k: int| 0 <= k < t.articles.len() implies #[trigger] t.articles[k]
            == s.articles[if k < i { k } else { k + 1 }] by {}
        assert forall|a: int, b: int| 0 <= a < b < t.articles.len() implies {
            &&& comes_before(#[trigger] t.articles[a], #[trigger] t.articles[b])
            &&& t.articles[a].slug != t.articles[b].slug
        } by {
            let a0 = if a < i { a } else { a + 1 };
            let b0 = if b < i { b } else { b + 1 };
            assert(t.articles[a] == s.articles[a0]);
            assert(t.articles[b] == s.articles[b0]);
            assert(comes_before(s.articles[a0], s.articles[b0]));
        }
        assert forall|k: int| 0 <= k < t.articles.len() implies t.article_sound(
            #[trigger] t.articles[k],
        ) by {
            let k0 = if k < i { k } else { k + 1 };
            assert(t.articles[k] == s.articles[k0]);
            assert(s.article_sound(s.articles[k0]));
            lemma_article_lookup(s, k0);
            assert(t.fans(t.articles[k].slug) =~= s.fans(s.articles[k0].slug));
        }
        assert(t.favorites.finite()) by {
            assert(t.favorites.subset_of(s.favorites));
            vstd::set_lib::lemma_len_subset(t.favorites, s.favorites);
        }
        assert forall|u: UserId, sl: Seq<char>| #[trigger]
            t.favorites.contains((u, sl)) implies t.has_user(u) && t.has_article(sl) by {
            assert(s.favorites.contains((u, sl)));
            let k = choose|k: int| s.article_at(k, sl);
            assert(s.article_at(k, sl));
            if k < i {
                assert(t.article_at(k, sl));
            } else {
                assert(t.articles[k - 1] == s.articles[k]);
                assert(t.article_at(k - 1, sl));
            }
        }
        if t.has_article(slug) {
            let k = choose|k: int| t.article_at(k, slug);
            let k0 = if k < i { k } else { k + 1 };
            assert(t.articles[k] == s.articles[k0]);
            lemma_article_lookup(s, k0);
        }
    } else {
        assert(!t.has_article(slug));
    }
}

} // verus!
