//! The repository: the one place where requests about articles and users
//! meet the store.
//!
//! What each operation returns and leaves behind is stated once, on the two
//! capability sets in `domain::repositories`. Here each operation that
//! writes adds one promise of its own: when it returns, the repository
//! still holds the borrow of the store that it was made with.

use vstd::prelude::*;
use crate::conduit::articles;
use crate::conduit::favorites;
use crate::conduit::followers;
use crate::conduit::users;
use crate::db::models::NewArticle;
use crate::db::state::StoreState;
use crate::db::store::Store;
use crate::domain::repositories::article_view;
use crate::domain::repositories::articles_views;
use crate::domain::repositories::listing;
use crate::domain::repositories::ArticleRepository;
use crate::domain::repositories::UsersRepository;
use crate::domain::Article;
use crate::domain::ArticleContent;
use crate::domain::ArticleMetadata;
use crate::domain::ArticleQuery;
use crate::domain::ArticleUpdate;
use crate::domain::ArticleView;
use crate::domain::ArticleViewModel;
use crate::domain::DatabaseError;
use crate::domain::FavoriteOutcome;
use crate::domain::GetArticleError;
use crate::domain::GetUserError;
use crate::domain::ProfileView;
use crate::domain::PublishArticleError;
use crate::domain::UnfavoriteOutcome;
use crate::domain::User;
use crate::domain::UserId;

verus! {

/// The repository over a store that it borrows for as long as it lives.
pub struct Repository<'a>(pub &'a mut Store);

impl<'a> Repository<'a> {
    /// The state of the store behind the repository.
    pub open spec fn state(&self) -> StoreState {
        self.0@
    }

    /// The store behind the repository is a valid one.
    pub open spec fn wf(&self) -> bool {
        self.0.wf()
    }
}

/// The article operations, each made of calls to the storage adapters and
/// of the conversion of their rows into domain entities.
impl<'a> ArticleRepository for Repository<'a> {
    open spec fn state(&self) -> StoreState {
        self.0@
    }

    open spec fn wf(&self) -> bool {
        self.0.wf()
    }

    fn publish(&mut self, draft: ArticleContent, author: &User) -> (r: Result<
        Article,
        PublishArticleError,
    >)
        ensures
            *final(final(self).0) == *final(old(self).0),
    {
        match articles::insert(self.0, NewArticle::from_draft(&draft, author)) {
            Ok(row) => {
                let metadata = ArticleMetadata::new(row.created_at, row.updated_at);
                let slug = draft.slug();
                Ok(Article::new(draft, slug, author.profile.clone(), metadata, 0))
            },
            Err(e) => Err(PublishArticleError::from_storage(e)),
        }
    }

    fn get_by_slug(&self, slug: &str) -> (r: Result<Article, GetArticleError>) {
        match articles::find_one(self.0, slug) {
            Ok((article, author)) => Ok(article.into_article(author.into_profile())),
            Err(e) => Err(GetArticleError::from_storage(e)),
        }
    }

    fn get_article_view(&self, viewer: &User, article: Article) -> (r: Result<
        ArticleView,
        GetArticleError,
    >) {
        let author_view = match self.get_view(viewer, article.author.username.as_str()) {
            Ok(view) => view,
            Err(e) => {
                return Err(GetArticleError::from_user_error(e));
            },
        };
        let is_favorite = favorites::is_favorite(self.0, viewer.id, article.slug.as_str());
        Ok(ArticleView::new(article, author_view, is_favorite, viewer.id))
    }

    fn get_articles_views(&self, viewer: &User, articles: Vec<Article>) -> (r: Result<
        Vec<ArticleView>,
        DatabaseError,
    >) {
        let mut owned: Vec<String> = Vec::new();
        let mut i: usize = 0;
        while i < articles.len()
            invariant
                i <= articles.len(),
                owned.len() == i,
                forall|j: int| 0 <= j < i ==> owned[j]@ == articles[j].slug@,
            decreases articles.len() - i,
        {
            owned.push(articles[i].slug.clone());
            i += 1;
        }
        let mut slugs: Vec<&str> = Vec::new();
        let mut k: usize = 0;
        while k < owned.len()
            invariant
                k <= owned.len(),
                slugs.len() == k,
                forall|j: int| 0 <= j < k ==> slugs[j]@ == owned[j]@,
            decreases owned.len() - k,
        {
            slugs.push(owned[k].as_str());
            k += 1;
        }
        let ghost given = articles.deep_view();
        let ghost asked = slugs.deep_view();
        let favs = favorites::are_favorite(self.0, viewer.id, slugs);
        let mut views: Vec<ArticleView> = Vec::new();
        for a in it: articles
            invariant
                self.wf(),
                given == articles.deep_view(),
                it.seq().len() == given.len(),
                forall|j: int| 0 <= j < given.len() ==> (#[trigger] it.seq()[j])@ == given[j],
                asked.len() == given.len(),
                forall|j: int| 0 <= j < given.len() ==> #[trigger] asked[j] == given[j].slug,
                favs@ == self.state().are_favorite(viewer.id, asked),
                views.len() == it.index(),
                forall|j: int|
                    0 <= j < it.index() ==> self.state().has_username(
                        (#[trigger] given[j]).author.username,
                    ),
                forall|j: int|
                    0 <= j < it.index() ==> Ok::<ArticleViewModel, GetArticleError>(
                        (#[trigger] views[j])@,
                    ) == article_view(self.state(), viewer.id, given[j]),
        {
            let ghost j = it.index();
            assert(asked.contains(a.slug@)) by {
                assert(asked[j] == a.slug@);
            }
            let favorited = match favs.get(a.slug.as_str()) {
                Some(f) => *f,
                None => false,
            };
            let author_view = match self.get_view(viewer, a.author.username.as_str()) {
                Ok(view) => view,
                Err(e) => {
                    assert(!self.state().has_username(given[j].author.username));
                    return Err(DatabaseError::from_user_error(e));
                },
            };
            views.push(ArticleView::new(a, author_view, favorited, viewer.id));
        }
        proof {
            let expected = articles_views(self.state(), viewer.id, given);
            assert(expected is Ok);
            assert(views.deep_view() =~= expected.unwrap());
        }
        Ok(views)
    }

    fn find_articles(&self, query: ArticleQuery) -> (r: Result<Vec<Article>, DatabaseError>) {
        let rows = articles::find(self.0, &query);
        let ghost page = self.state().page(query@);
        let ghost found = rows@;
        let mut result: Vec<Article> = Vec::new();
        for pair in it: rows
            invariant
                it.seq() == found,
                found.len() == page.len(),
                forall|j: int|
                    0 <= j < found.len() ==> {
                        &&& (#[trigger] found[j]).0@ == page[j]
                        &&& self.state().user_by_id(found[j].0.author_id) == Some(found[j].1@)
                    },
                result.len() == it.index(),
                forall|j: int|
                    0 <= j < it.index() ==> (#[trigger] result[j])@ == self.state().entity(page[j]),
        {
            let (row, author) = pair;
            result.push(row.into_article(author.into_profile()));
        }
        proof {
            assert(result.deep_view() =~= listing(self.state(), query@));
        }
        Ok(result)
    }

    fn delete_article(&mut self, article: &Article) -> (r: Result<(), DatabaseError>)
        ensures
            *final(final(self).0) == *final(old(self).0),
    {
        articles::delete(self.0, article.slug.as_str());
        Ok(())
    }

    fn update_article(&mut self, article: Article, update: ArticleUpdate) -> (r: Result<
        Article,
        DatabaseError,
    >)
        ensures
            *final(final(self).0) == *final(old(self).0),
    {
        articles::update(self.0, &update, article.slug.as_str());
        match self.get_by_slug(article.slug.as_str()) {
            Ok(a) => Ok(a),
            Err(e) => Err(DatabaseError::from_article_error(e)),
        }
    }

    fn favorite(&mut self, article: &Article, user: &User) -> (r: Result<
        FavoriteOutcome,
        DatabaseError,
    >)
        ensures
            *final(final(self).0) == *final(old(self).0),
    {
        match favorites::favorite(self.0, user.id, article.slug.as_str()) {
            Ok(o) => Ok(o),
            Err(e) => Err(DatabaseError::from_storage(e)),
        }
    }

    fn unfavorite(&mut self, article: &Article, user: &User) -> (r: Result<
        UnfavoriteOutcome,
        DatabaseError,
    >)
        ensures
            *final(final(self).0) == *final(old(self).0),
    {
        match favorites::unfavorite(self.0, user.id, article.slug.as_str()) {
            Ok(o) => Ok(o),
            Err(e) => Err(DatabaseError::from_storage(e)),
        }
    }
}

/// The user operations.
impl<'a> UsersRepository for Repository<'a> {
    open spec fn state(&self) -> StoreState {
        self.0@
    }

    open spec fn wf(&self) -> bool {
        self.0.wf()
    }

    fn get_by_id(&self, user_id: UserId) -> (r: Result<User, GetUserError>) {
        match users::find(self.0, user_id) {
            Ok(u) => Ok(u.into_user()),
            Err(e) => Err(GetUserError::from_storage(e)),
        }
    }

    fn get_view(&self, viewer: &User, username: &str) -> (r: Result<ProfileView, GetUserError>) {
        let viewed_user = match users::find_by_username(self.0, username) {
            Ok(u) => u,
            Err(e) => {
                return Err(GetUserError::from_storage(e));
            },
        };
        let following = followers::is_following(self.0, viewer.id, viewed_user.id);
        Ok(ProfileView::new(viewed_user.into_profile(), following, viewer.id))
    }
}

} // verus!
