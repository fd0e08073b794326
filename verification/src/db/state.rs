//! The mathematical model of the store: four tables and a clock, the
//! integrity rules that hold after every committed operation, and the
//! state that each operation of a storage adapter leaves behind.

use vstd::prelude::*;
use crate::db::models::ArticleRecord;
use crate::db::models::NewArticleRecord;
use crate::db::models::UserRecord;
use crate::domain::ArticleModel;
use crate::domain::ArticleQueryModel;
use crate::domain::ArticleUpdateModel;
use crate::domain::FavoriteOutcome;
use crate::domain::StorageError;
use crate::domain::Timestamp;
use crate::domain::UnfavoriteOutcome;
use crate::domain::UserId;
use crate::text::text_lt;

verus! {

/// The listing order of articles: newest first, ties broken by slug in
/// ascending order.
pub open spec fn comes_before(a: ArticleRecord, b: ArticleRecord) -> bool {
    ||| a.created_at > b.created_at
    ||| (a.created_at == b.created_at && text_lt(a.slug, b.slug))
}

/// The state of the store.
///
/// `users` holds the rows of the users table in the order in which they
/// were registered, `articles` the rows of the articles table in listing
/// order. `favorites` holds a pair `(user, slug)` for each user who has
/// favorited an article, `followers` a pair `(follower, followed)` for each
/// follow. `clock` is the commit time of the latest operation.
pub struct StoreState {
    pub users: Seq<UserRecord>,
    pub articles: Seq<ArticleRecord>,
    pub favorites: Set<(UserId, Seq<char>)>,
    pub followers: Set<(UserId, UserId)>,
    pub clock: Timestamp,
}

impl StoreState {
    /// The store with no rows, at the start of time.
    pub open spec fn empty() -> StoreState {
        StoreState {
            users: Seq::empty(),
            articles: Seq::empty(),
            favorites: Set::empty(),
            followers: Set::empty(),
            clock: 0,
        }
    }

    // ----- lookups --------------------------------------------------------

    pub open spec fn user_at(self, i: int, id: UserId) -> bool {
        0 <= i < self.users.len() && self.users[i].id == id
    }

    pub open spec fn has_user(self, id: UserId) -> bool {
        exists|i: int| self.user_at(i, id)
    }

    /// The row of the user with this identity.
    pub open spec fn user_by_id(self, id: UserId) -> Option<UserRecord> {
        if self.has_user(id) {
            Some(self.users[choose|i: int| self.user_at(i, id)])
        } else {
            None
        }
    }

    pub open spec fn named_at(self, i: int, username: Seq<char>) -> bool {
        0 <= i < self.users.len() && self.users[i].username == username
    }

    pub open spec fn has_username(self, username: Seq<char>) -> bool {
        exists|i: int| self.named_at(i, username)
    }

    /// The row of the user with this username.
    pub open spec fn user_by_username(self, username: Seq<char>) -> Option<UserRecord> {
        if self.has_username(username) {
            Some(self.users[choose|i: int| self.named_at(i, username)])
        } else {
            None
        }
    }

    pub open spec fn mailed_at(self, i: int, email: Seq<char>) -> bool {
        0 <= i < self.users.len() && self.users[i].email == email
    }

    pub open spec fn has_email(self, email: Seq<char>) -> bool {
        exists|i: int| self.mailed_at(i, email)
    }

    pub open spec fn article_at(self, i: int, slug: Seq<char>) -> bool {
        0 <= i < self.articles.len() && self.articles[i].slug == slug
    }

    pub open spec fn has_article(self, slug: Seq<char>) -> bool {
        exists|i: int| self.article_at(i, slug)
    }

    /// Where the article with this slug stands in the listing.
    pub open spec fn article_index(self, slug: Seq<char>) -> int {
        choose|i: int| self.article_at(i, slug)
    }

    /// The row of the article with this slug.
    pub open spec fn article_by_slug(self, slug: Seq<char>) -> Option<ArticleRecord> {
        if self.has_article(slug) {
            Some(self.articles[self.article_index(slug)])
        } else {
            None
        }
    }

    /// Has the user favorited the article?
    pub open spec fn is_favorite(self, user: UserId, slug: Seq<char>) -> bool {
        self.favorites.contains((user, slug))
    }

    /// Does `follower` follow `followed`?
    pub open spec fn is_following(self, follower: UserId, followed: UserId) -> bool {
        self.followers.contains((follower, followed))
    }

    /// For each of the given slugs, whether the user has favorited the
    /// article: a map that holds every given slug and no other.
    pub open spec fn are_favorite(self, user: UserId, slugs: Seq<Seq<char>>) -> Map<
        Seq<char>,
        bool,
    > {
        Map::new(|s: Seq<char>| slugs.contains(s), |s: Seq<char>| self.is_favorite(user, s))
    }

    /// The users who have favorited the article.
    pub open spec fn fans(self, slug: Seq<char>) -> Set<UserId> {
        Set::new(|u: UserId| self.favorites.contains((u, slug)))
    }

    /// The article's count of favorites as its row holds it; 0 where there
    /// is no such article.
    pub open spec fn favorites_count(self, slug: Seq<char>) -> u64 {
        match self.article_by_slug(slug) {
            Some(a) => a.favorites_count,
            None => 0,
        }
    }

    // ----- integrity ------------------------------------------------------

    /// Identity, username and email each name at most one user.
    pub open spec fn users_distinct(self) -> bool {
        forall|i: int, j: int|
            0 <= i < j < self.users.len() ==> {
                &&& (#[trigger] self.users[i]).id != (#[trigger] self.users[j]).id
                &&& self.users[i].username != self.users[j].username
                &&& self.users[i].email != self.users[j].email
            }
    }

    /// Articles stand in listing order. No two of them share a slug.
    pub open spec fn articles_listed(self) -> bool {
        forall|i: int, j: int|
            0 <= i < j < self.articles.len() ==> {
                &&& comes_before(#[trigger] self.articles[i], #[trigger] self.articles[j])
                &&& self.articles[i].slug != self.articles[j].slug
            }
    }

    /// What holds of each article on its own: its author exists, it was not
    /// updated before it was created nor after the latest commit, and its
    /// count of favorites is the number of users who have favorited it.
    pub open spec fn article_sound(self, a: ArticleRecord) -> bool {
        &&& self.has_user(a.author_id)
        &&& a.created_at <= a.updated_at <= self.clock
        &&& self.fans(a.slug).finite()
        &&& a.favorites_count == self.fans(a.slug).len()
    }

    pub open spec fn articles_sound(self) -> bool {
        forall|i: int|
            0 <= i < self.articles.len() ==> self.article_sound(#[trigger] self.articles[i])
    }

    /// A favorite joins a user and an article that both exist.
    pub open spec fn favorites_sound(self) -> bool {
        &&& self.favorites.finite()
        &&& forall|u: UserId, s: Seq<char>| #[trigger]
            self.favorites.contains((u, s)) ==> self.has_user(u) && self.has_article(s)
    }

    /// A follow joins two different users that both exist.
    pub open spec fn followers_sound(self) -> bool {
        &&& self.followers.finite()
        &&& forall|a: UserId, b: UserId| #[trigger]
            self.followers.contains((a, b)) ==> a != b && self.has_user(a) && self.has_user(b)
    }

    /// The integrity rules of the store.
    pub open spec fn wf(self) -> bool {
        &&& self.users_distinct()
        &&& self.articles_listed()
        &&& self.articles_sound()
        &&& self.favorites_sound()
        &&& self.followers_sound()
    }

    // ----- the clock ------------------------------------------------------

    /// The state once the clock has been told that it is `now`. The clock
    /// never runs backwards.
    pub open spec fn advance_clock(self, now: Timestamp) -> StoreState {
        StoreState { clock: if now > self.clock { now } else { self.clock }, ..self }
    }

    // ----- users ----------------------------------------------------------

    /// Why a user cannot be registered, if so.
    pub open spec fn register_error(self, user: UserRecord) -> Option<StorageError> {
        if self.has_user(user.id) || self.has_username(user.username) || self.has_email(
            user.email,
        ) {
            Some(StorageError::UniqueViolation)
        } else {
            None
        }
    }

    /// The state after an attempt to register a user.
    pub open spec fn register(self, user: UserRecord) -> StoreState {
        if self.register_error(user) is Some {
            self
        } else {
            StoreState { users: self.users.push(user), ..self }
        }
    }

    // ----- followers ------------------------------------------------------

    /// Why `follower` cannot follow `followed`, if so.
    pub open spec fn follow_error(self, follower: UserId, followed: UserId) -> Option<
        StorageError,
    > {
        if follower == followed {
            Some(StorageError::CheckViolation)
        } else if !self.has_user(follower) || !self.has_user(followed) {
            Some(StorageError::ForeignKeyViolation)
        } else {
            None
        }
    }

    /// The state after an attempt to follow.
    pub open spec fn follow(self, follower: UserId, followed: UserId) -> StoreState {
        if self.follow_error(follower, followed) is Some {
            self
        } else {
            StoreState { followers: self.followers.insert((follower, followed)), ..self }
        }
    }

    /// The state after `follower` has stopped following `followed`.
    pub open spec fn unfollow(self, follower: UserId, followed: UserId) -> StoreState {
        StoreState { followers: self.followers.remove((follower, followed)), ..self }
    }

    // ----- favorites ------------------------------------------------------

    /// What a request to favorite returns.
    pub open spec fn favorite_result(self, user: UserId, slug: Seq<char>) -> Result<
        FavoriteOutcome,
        StorageError,
    > {
        let count = self.favorites_count(slug);
        if !self.has_user(user) || !self.has_article(slug) {
            Err(StorageError::ForeignKeyViolation)
        } else if self.is_favorite(user, slug) {
            Ok(FavoriteOutcome::AlreadyFavorited(count))
        } else if count == u64::MAX {
            Err(StorageError::OutOfRange)
        } else {
            Ok(FavoriteOutcome::NewFavorite((count + 1) as u64))
        }
    }

    /// The state after a request to favorite: a new favorite is recorded
    /// and counted at once; any other outcome changes nothing.
    pub open spec fn favorite(self, user: UserId, slug: Seq<char>) -> StoreState {
        match self.favorite_result(user, slug) {
            Ok(FavoriteOutcome::NewFavorite(n)) => {
                let i = self.article_index(slug);
                StoreState {
                    articles: self.articles.update(i, self.articles[i].counting(n)),
                    favorites: self.favorites.insert((user, slug)),
                    ..self
                }
            },
            _ => self,
        }
    }

    /// What a request to unfavorite returns.
    pub open spec fn unfavorite_result(self, user: UserId, slug: Seq<char>) -> Result<
        UnfavoriteOutcome,
        StorageError,
    > {
        let count = self.favorites_count(slug);
        if !self.has_article(slug) {
            Err(StorageError::NotFound)
        } else if !self.is_favorite(user, slug) {
            Ok(UnfavoriteOutcome::WasNotFavorited(count))
        } else {
            Ok(UnfavoriteOutcome::WasFavorited((count - 1) as u64))
        }
    }

    /// The state after a request to unfavorite: a favorite that was there
    /// is removed and no longer counted; any other outcome changes nothing.
    pub open spec fn unfavorite(self, user: UserId, slug: Seq<char>) -> StoreState {
        match self.unfavorite_result(user, slug) {
            Ok(UnfavoriteOutcome::WasFavorited(n)) => {
                let i = self.article_index(slug);
                StoreState {
                    articles: self.articles.update(i, self.articles[i].counting(n)),
                    favorites: self.favorites.remove((user, slug)),
                    ..self
                }
            },
            _ => self,
        }
    }

    // ----- articles -------------------------------------------------------

    /// `p` is the place of `row` in the listing: what stands before `p`
    /// comes before the row, what stands from `p` on comes after it.
    pub open spec fn is_slot(self, row: ArticleRecord, p: int) -> bool {
        &&& 0 <= p <= self.articles.len()
        &&& forall|j: int| 0 <= j < p ==> comes_before(#[trigger] self.articles[j], row)
        &&& forall|j: int|
            p <= j < self.articles.len() ==> comes_before(row, #[trigger] self.articles[j])
    }

    pub open spec fn slot(self, row: ArticleRecord) -> int {
        choose|p: int| self.is_slot(row, p)
    }

    /// Why an article cannot be inserted, if so.
    pub open spec fn insert_error(self, new: NewArticleRecord) -> Option<StorageError> {
        if self.has_article(new.slug) {
            Some(StorageError::UniqueViolation)
        } else if !self.has_user(new.author_id) {
            Some(StorageError::ForeignKeyViolation)
        } else {
            None
        }
    }

    /// The state after an attempt to insert an article: the new row,
    /// stamped with the time on the clock, stands at its place in the
    /// listing.
    pub open spec fn insert_article(self, new: NewArticleRecord) -> StoreState {
        if self.insert_error(new) is Some {
            self
        } else {
            let row = new.row_at(self.clock);
            StoreState { articles: self.articles.insert(self.slot(row), row), ..self }
        }
    }

    /// The state after a patch to the article with this slug; nothing
    /// changes where there is no such article.
    pub open spec fn update_article(self, slug: Seq<char>, update: ArticleUpdateModel) -> StoreState {
        if self.has_article(slug) {
            let i = self.article_index(slug);
            StoreState {
                articles: self.articles.update(i, self.articles[i].patched(update, self.clock)),
                ..self
            }
        } else {
            self
        }
    }

    /// The state after the article with this slug has been deleted: its
    /// row is gone, and with it every favorite of it.
    pub open spec fn delete_article(self, slug: Seq<char>) -> StoreState {
        if self.has_article(slug) {
            StoreState {
                articles: self.articles.remove(self.article_index(slug)),
                favorites: self.favorites.filter(|f: (UserId, Seq<char>)| f.1 != slug),
                ..self
            }
        } else {
            self
        }
    }

    // ----- listings -------------------------------------------------------

    /// The article entity of a row: the row joined with the profile of its
    /// author.
    pub open spec fn entity(self, a: ArticleRecord) -> ArticleModel {
        a.article(self.user_by_id(a.author_id).unwrap().profile())
    }

    /// The user whose favorites the query asks for, where it asks for
    /// any and there is such a user.
    pub open spec fn fan(self, query: ArticleQueryModel) -> Option<UserId> {
        match query.favorited {
            Some(name) => match self.user_by_username(name) {
                Some(u) => Some(u.id),
                None => None,
            },
            None => None,
        }
    }

    /// Does the article pass every filter that the query holds? A filter
    /// by author asks that the author has that username; a filter by
    /// favorites, that the user of that username has favorited the article;
    /// a filter by tag, that the article carries the tag.
    pub open spec fn matches(self, query: ArticleQueryModel, a: ArticleRecord) -> bool {
        &&& query.author matches Some(name) ==> (self.user_by_id(a.author_id) matches Some(u)
            && u.username == name)
        &&& query.favorited is Some ==> (self.fan(query) matches Some(id) && self.is_favorite(
            id,
            a.slug,
        ))
        &&& query.tag matches Some(tag) ==> a.tag_list.contains(tag)
    }

    /// Those of `rows` that pass the query's filters, in the order of `rows`.
    pub open spec fn matching_in(
        self,
        rows: Seq<ArticleRecord>,
        query: ArticleQueryModel,
    ) -> Seq<ArticleRecord> {
        rows.filter(|a: ArticleRecord| self.matches(query, a))
    }

    /// All articles that pass the query's filters, in listing order.
    pub open spec fn matching(self, query: ArticleQueryModel) -> Seq<ArticleRecord> {
        self.matching_in(self.articles, query)
    }

    /// What looking up an article by its slug returns.
    pub open spec fn find_one(self, slug: Seq<char>) -> Result<ArticleRecord, StorageError> {
        match self.article_by_slug(slug) {
            Some(a) => Ok(a),
            None => Err(StorageError::NotFound),
        }
    }

    /// The part of `all` that stands on the page the query asks for: what
    /// is left after the offset, up to the limit.
    pub open spec fn page_of(all: Seq<ArticleRecord>, query: ArticleQueryModel) -> Seq<
        ArticleRecord,
    > {
        let from = if query.page_offset() < all.len() {
            query.page_offset() as int
        } else {
            all.len() as int
        };
        let to = if from + query.page_limit() < all.len() {
            from + query.page_limit()
        } else {
            all.len() as int
        };
        all.subrange(from, to)
    }

    /// The page of matching articles that the query asks for.
    pub open spec fn page(self, query: ArticleQueryModel) -> Seq<ArticleRecord> {
        Self::page_of(self.matching(query), query)
    }
}

} // verus!
