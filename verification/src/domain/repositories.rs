//! The two capability sets of a repository, and what each operation
//! returns and leaves behind, stated over the state of the store.

use vstd::prelude::*;
use crate::db::models::NewArticleRecord;
use crate::db::state::StoreState;
use crate::domain::Article;
use crate::domain::ArticleContent;
use crate::domain::ArticleContentModel;
use crate::domain::ArticleMetadata;
use crate::domain::ArticleModel;
use crate::domain::ArticleQuery;
use crate::domain::ArticleQueryModel;
use crate::domain::ArticleUpdate;
use crate::domain::ArticleUpdateModel;
use crate::domain::ArticleView;
use crate::domain::ArticleViewModel;
use crate::domain::DatabaseError;
use crate::domain::FavoriteOutcome;
use crate::domain::GetArticleError;
use crate::domain::GetUserError;
use crate::domain::ProfileView;
use crate::domain::ProfileViewModel;
use crate::domain::PublishArticleError;
use crate::domain::StorageError;
use crate::domain::UnfavoriteOutcome;
use crate::domain::User;
use crate::domain::UserId;
use crate::domain::UserModel;

verus! {

/// A result with the model of what it holds on success.
pub open spec fn outcome<T: DeepView, E>(r: Result<T, E>) -> Result<T::V, E> {
    match r {
        Ok(t) => Ok(t.deep_view()),
        Err(e) => Err(e),
    }
}

/// What publishing `draft` for `author` returns: the new article, built
/// from the draft, the author's profile as handed in, and the time on the
/// clock, with no favorites yet; or why the row could not be inserted.
pub open spec fn published(s: StoreState, draft: ArticleContentModel, author: UserModel) -> Result<
    ArticleModel,
    PublishArticleError,
> {
    match s.insert_error(NewArticleRecord::of(draft, author)) {
        Some(e) => Err(PublishArticleError::of_storage(e)),
        None => Ok(
            ArticleModel {
                content: draft,
                slug: draft.slug(),
                author: author.profile,
                metadata: ArticleMetadata { created_at: s.clock, updated_at: s.clock },
                favorites_count: 0,
            },
        ),
    }
}

/// The state after publishing `draft` for `author`.
pub open spec fn after_publish(
    s: StoreState,
    draft: ArticleContentModel,
    author: UserModel,
) -> StoreState {
    s.insert_article(NewArticleRecord::of(draft, author))
}

/// What looking up an article by its slug returns: the article with its
/// author's current profile and its current count of favorites.
pub open spec fn article_by_slug(s: StoreState, slug: Seq<char>) -> Result<
    ArticleModel,
    GetArticleError,
> {
    match s.article_by_slug(slug) {
        Some(a) => Ok(s.entity(a)),
        None => Err(GetArticleError::NotFound),
    }
}

/// What looking up a user by identity returns.
pub open spec fn user_by_id(s: StoreState, id: UserId) -> Result<UserModel, GetUserError> {
    match s.user_by_id(id) {
        Some(u) => Ok(u.user()),
        None => Err(GetUserError::NotFound),
    }
}

/// The profile of the user with this username as `viewer` sees it: joined
/// with whether the viewer follows that user.
pub open spec fn profile_view(s: StoreState, viewer: UserId, username: Seq<char>) -> Result<
    ProfileViewModel,
    GetUserError,
> {
    match s.user_by_username(username) {
        Some(u) => Ok(
            ProfileViewModel {
                profile: u.profile(),
                following: s.is_following(viewer, u.id),
                viewer,
            },
        ),
        None => Err(GetUserError::NotFound),
    }
}

/// The article as `viewer` sees it: joined with its author as the viewer
/// sees them and with whether the viewer has favorited it. An article
/// whose author cannot be found cannot be shown.
pub open spec fn article_view(s: StoreState, viewer: UserId, article: ArticleModel) -> Result<
    ArticleViewModel,
    GetArticleError,
> {
    match profile_view(s, viewer, article.author.username) {
        Ok(author) => Ok(article.seen_by(viewer, author, s.is_favorite(viewer, article.slug))),
        Err(e) => Err(GetArticleError::of_user_error(e)),
    }
}

/// The articles as `viewer` sees them, in the order given. One article
/// whose author cannot be found fails the whole batch.
pub open spec fn articles_views(s: StoreState, viewer: UserId, articles: Seq<ArticleModel>) -> Result<
    Seq<ArticleViewModel>,
    DatabaseError,
> {
    if forall|i: int|
        0 <= i < articles.len() ==> s.has_username((#[trigger] articles[i]).author.username) {
        Ok(Seq::new(articles.len(), |i: int| article_view(s, viewer, articles[i]).unwrap()))
    } else {
        Err(DatabaseError { source: StorageError::NotFound })
    }
}

/// The page of articles that the query asks for, as entities.
pub open spec fn listing(s: StoreState, query: ArticleQueryModel) -> Seq<ArticleModel> {
    s.page(query).map_values(|a| s.entity(a))
}

/// What updating the article with this slug returns: the article as it is
/// read back after the write.
pub open spec fn updated(s: StoreState, slug: Seq<char>, update: ArticleUpdateModel) -> Result<
    ArticleModel,
    DatabaseError,
> {
    match article_by_slug(s.update_article(slug, update), slug) {
        Ok(a) => Ok(a),
        Err(e) => Err(DatabaseError::of_article_error(e)),
    }
}

/// What a request to favorite returns.
pub open spec fn favorited(s: StoreState, user: UserId, slug: Seq<char>) -> Result<
    FavoriteOutcome,
    DatabaseError,
> {
    match s.favorite_result(user, slug) {
        Ok(o) => Ok(o),
        Err(e) => Err(DatabaseError { source: e }),
    }
}

/// What a request to unfavorite returns.
pub open spec fn unfavorited(s: StoreState, user: UserId, slug: Seq<char>) -> Result<
    UnfavoriteOutcome,
    DatabaseError,
> {
    match s.unfavorite_result(user, slug) {
        Ok(o) => Ok(o),
        Err(e) => Err(DatabaseError { source: e }),
    }
}

/// What can be asked of a repository about articles.
pub trait ArticleRepository {
    /// The state of the store behind the repository.
    spec fn state(&self) -> StoreState;

    /// The store behind the repository is a valid one.
    spec fn wf(&self) -> bool;

    /// Publishes a draft under the slug derived from its title.
    fn publish(&mut self, draft: ArticleContent, author: &User) -> (r: Result<
        Article,
        PublishArticleError,
    >)
        requires
            old(self).wf(),
        ensures
            final(self).wf(),
            final(self).state() == after_publish(old(self).state(), draft@, author@),
            outcome(r) == published(old(self).state(), draft@, author@),
    ;

    /// The article with this slug.
    fn get_by_slug(&self, slug: &str) -> (r: Result<Article, GetArticleError>)
        requires
            self.wf(),
        ensures
            outcome(r) == article_by_slug(self.state(), slug@),
    ;

    /// The article as `viewer` sees it.
    fn get_article_view(&self, viewer: &User, article: Article) -> (r: Result<
        ArticleView,
        GetArticleError,
    >)
        requires
            self.wf(),
        ensures
            outcome(r) == article_view(self.state(), viewer.id, article@),
    ;

    /// The articles as `viewer` sees them, in the order given. Which of
    /// them the viewer has favorited is asked of the store once, for all
    /// of them together.
    fn get_articles_views(&self, viewer: &User, articles: Vec<Article>) -> (r: Result<
        Vec<ArticleView>,
        DatabaseError,
    >)
        requires
            self.wf(),
        ensures
            outcome(r) == articles_views(self.state(), viewer.id, articles.deep_view()),
            r matches Ok(views) ==> {
                &&& views.len() == articles.len()
                &&& forall|i: int|
                    0 <= i < views.len() ==> {
                        &&& (#[trigger] views[i]).slug@ == articles[i].slug@
                        &&& views[i].favorited == self.state().is_favorite(
                            viewer.id,
                            articles[i].slug@,
                        )
                    }
            },
    ;

    /// The page of articles that the query asks for: those that pass all
    /// of its filters, newest first and by slug among those of one instant.
    fn find_articles(&self, query: ArticleQuery) -> (r: Result<Vec<Article>, DatabaseError>)
        requires
            self.wf(),
        ensures
            outcome(r) == Ok::<Seq<ArticleModel>, DatabaseError>(listing(self.state(), query@)),
    ;

    /// Deletes the article and every favorite of it.
    fn delete_article(&mut self, article: &Article) -> (r: Result<(), DatabaseError>)
        requires
            old(self).wf(),
        ensures
            final(self).wf(),
            final(self).state() == old(self).state().delete_article(article.slug@),
            r is Ok,
    ;

    /// Applies the patch to the article and returns the article as it is
    /// read back after the write.
    fn update_article(&mut self, article: Article, update: ArticleUpdate) -> (r: Result<
        Article,
        DatabaseError,
    >)
        requires
            old(self).wf(),
        ensures
            final(self).wf(),
            final(self).state() == old(self).state().update_article(article.slug@, update@),
            outcome(r) == updated(old(self).state(), article.slug@, update@),
    ;

    /// Records that `user` has favorited the article.
    fn favorite(&mut self, article: &Article, user: &User) -> (r: Result<
        FavoriteOutcome,
        DatabaseError,
    >)
        requires
            old(self).wf(),
        ensures
            final(self).wf(),
            final(self).state() == old(self).state().favorite(user.id, article.slug@),
            r == favorited(old(self).state(), user.id, article.slug@),
    ;

    /// Removes the favorite that `user` gave the article.
    fn unfavorite(&mut self, article: &Article, user: &User) -> (r: Result<
        UnfavoriteOutcome,
        DatabaseError,
    >)
        requires
            old(self).wf(),
        ensures
            final(self).wf(),
            final(self).state() == old(self).state().unfavorite(user.id, article.slug@),
            r == unfavorited(old(self).state(), user.id, article.slug@),
    ;
}

/// What can be asked of a repository about users.
pub trait UsersRepository {
    /// The state of the store behind the repository.
    spec fn state(&self) -> StoreState;

    /// The store behind the repository is a valid one.
    spec fn wf(&self) -> bool;

    /// The user with this identity.
    fn get_by_id(&self, user_id: UserId) -> (r: Result<User, GetUserError>)
        requires
            self.wf(),
        ensures
            outcome(r) == user_by_id(self.state(), user_id),
    ;

    /// The profile of the user with this username as `viewer` sees it.
    fn get_view(&self, viewer: &User, username: &str) -> (r: Result<ProfileView, GetUserError>)
        requires
            self.wf(),
        ensures
            outcome(r) == profile_view(self.state(), viewer.id, username@),
    ;
}

} // verus!
