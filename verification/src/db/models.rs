//! Row shapes of the store's tables, and their conversion into domain
//! entities.

use vstd::prelude::*;
use crate::domain::clone_opt;
use crate::domain::clone_strings;
use crate::domain::Article;
use crate::domain::ArticleContent;
use crate::domain::ArticleContentModel;
use crate::domain::ArticleMetadata;
use crate::domain::ArticleModel;
use crate::domain::ArticleUpdateModel;
use crate::domain::Profile;
use crate::domain::ProfileModel;
use crate::domain::Timestamp;
use crate::domain::User;
use crate::domain::UserId;
use crate::domain::UserModel;

verus! {

/// A row of the users table.
#[derive(Debug, PartialEq, Eq)]
pub struct UserRow {
    pub id: UserId,
    pub email: String,
    pub username: String,
    pub bio: Option<String>,
    pub image: Option<String>,
}

pub struct UserRecord {
    pub id: UserId,
    pub email: Seq<char>,
    pub username: Seq<char>,
    pub bio: Option<Seq<char>>,
    pub image: Option<Seq<char>>,
}

impl UserRecord {
    pub open spec fn profile(self) -> ProfileModel {
        ProfileModel { username: self.username, bio: self.bio, image: self.image }
    }

    pub open spec fn user(self) -> UserModel {
        UserModel { id: self.id, email: self.email, profile: self.profile() }
    }

    /// The row that holds exactly what the user entity holds.
    pub open spec fn of(user: UserModel) -> UserRecord {
        UserRecord {
            id: user.id,
            email: user.email,
            username: user.profile.username,
            bio: user.profile.bio,
            image: user.profile.image,
        }
    }
}

impl View for UserRow {
    type V = UserRecord;

    open spec fn view(&self) -> UserRecord {
        UserRecord {
            id: self.id,
            email: self.email@,
            username: self.username@,
            bio: self.bio.deep_view(),
            image: self.image.deep_view(),
        }
    }
}

impl DeepView for UserRow {
    type V = UserRecord;

    open spec fn deep_view(&self) -> UserRecord {
        self@
    }
}

impl Clone for UserRow {
    fn clone(&self) -> (r: Self)
        ensures
            r@ == self@,
    {
        UserRow {
            id: self.id,
            email: self.email.clone(),
            username: self.username.clone(),
            bio: clone_opt(&self.bio),
            image: clone_opt(&self.image),
        }
    }
}

impl UserRow {
    /// The row of a user entity.
    pub fn from_user(user: &User) -> (r: Self)
        ensures
            r@ == UserRecord::of(user@),
    {
        UserRow {
            id: user.id,
            email: user.email.clone(),
            username: user.profile.username.clone(),
            bio: clone_opt(&user.profile.bio),
            image: clone_opt(&user.profile.image),
        }
    }

    /// The public profile held in the row.
    pub fn into_profile(self) -> (r: Profile)
        ensures
            r@ == self@.profile(),
    {
        Profile::new(self.username, self.bio, self.image)
    }

    /// The user entity held in the row.
    pub fn into_user(self) -> (r: User)
        ensures
            r@ == self@.user(),
    {
        let profile = Profile::new(self.username, self.bio, self.image);
        User::new(self.id, self.email, profile)
    }
}

/// What is handed to the articles table to create a row.
#[derive(Debug, PartialEq, Eq)]
pub struct NewArticle {
    pub slug: String,
    pub title: String,
    pub description: String,
    pub body: String,
    pub tag_list: Vec<String>,
    pub author_id: UserId,
}

pub struct NewArticleRecord {
    pub slug: Seq<char>,
    pub title: Seq<char>,
    pub description: Seq<char>,
    pub body: Seq<char>,
    pub tag_list: Seq<Seq<char>>,
    pub author_id: UserId,
}

impl NewArticleRecord {
    /// The insert that publishes `draft` for `author`: the slug is the
    /// draft's own.
    pub open spec fn of(draft: ArticleContentModel, author: UserModel) -> NewArticleRecord {
        NewArticleRecord {
            slug: draft.slug(),
            title: draft.title,
            description: draft.description,
            body: draft.body,
            tag_list: draft.tag_list,
            author_id: author.id,
        }
    }

    /// The row that the insert creates when the clock shows `now`: no
    /// favorites yet, created and updated at that instant.
    pub open spec fn row_at(self, now: Timestamp) -> ArticleRecord {
        ArticleRecord {
            slug: self.slug,
            title: self.title,
            description: self.description,
            body: self.body,
            tag_list: self.tag_list,
            author_id: self.author_id,
            favorites_count: 0,
            created_at: now,
            updated_at: now,
        }
    }
}

impl View for NewArticle {
    type V = NewArticleRecord;

    open spec fn view(&self) -> NewArticleRecord {
        NewArticleRecord {
            slug: self.slug@,
            title: self.title@,
            description: self.description@,
            body: self.body@,
            tag_list: self.tag_list.deep_view(),
            author_id: self.author_id,
        }
    }
}

impl NewArticle {
    /// The insert that publishes `draft` for `author`.
    pub fn from_draft(draft: &ArticleContent, author: &User) -> (r: Self)
        ensures
            r@ == NewArticleRecord::of(draft@, author@),
    {
        NewArticle {
            slug: draft.slug(),
            title: draft.title.clone(),
            description: draft.description.clone(),
            body: draft.body.clone(),
            tag_list: clone_strings(&draft.tag_list),
            author_id: author.id,
        }
    }

    /// The row that the insert creates when the clock shows `now`.
    pub fn into_row(self, now: Timestamp) -> (r: ArticleRow)
        ensures
            r@ == self@.row_at(now),
    {
        ArticleRow {
            slug: self.slug,
            title: self.title,
            description: self.description,
            body: self.body,
            tag_list: self.tag_list,
            author_id: self.author_id,
            favorites_count: 0,
            created_at: now,
            updated_at: now,
        }
    }
}

/// A row of the articles table.
#[derive(Debug, PartialEq, Eq)]
pub struct ArticleRow {
    pub slug: String,
    pub title: String,
    pub description: String,
    pub body: String,
    pub tag_list: Vec<String>,
    pub author_id: UserId,
    pub favorites_count: u64,
    pub created_at: Timestamp,
    pub updated_at: Timestamp,
}

pub struct ArticleRecord {
    pub slug: Seq<char>,
    pub title: Seq<char>,
    pub description: Seq<char>,
    pub body: Seq<char>,
    pub tag_list: Seq<Seq<char>>,
    pub author_id: UserId,
    pub favorites_count: u64,
    pub created_at: Timestamp,
    pub updated_at: Timestamp,
}

impl ArticleRecord {
    pub open spec fn content(self) -> ArticleContentModel {
        ArticleContentModel {
            title: self.title,
            description: self.description,
            body: self.body,
            tag_list: self.tag_list,
        }
    }

    pub open spec fn metadata(self) -> ArticleMetadata {
        ArticleMetadata { created_at: self.created_at, updated_at: self.updated_at }
    }

    /// The article entity that the row and its author's profile make.
    pub open spec fn article(self, author: ProfileModel) -> ArticleModel {
        ArticleModel {
            content: self.content(),
            slug: self.slug,
            author,
            metadata: self.metadata(),
            favorites_count: self.favorites_count,
        }
    }

    /// The row after a patch applied when the clock shows `now`: a present
    /// field replaces the stored one, the slug stays, and the row counts as
    /// updated at `now`.
    pub open spec fn patched(self, update: ArticleUpdateModel, now: Timestamp) -> ArticleRecord {
        ArticleRecord {
            title: match update.title {
                Some(t) => t,
                None => self.title,
            },
            description: match update.description {
                Some(d) => d,
                None => self.description,
            },
            body: match update.body {
                Some(b) => b,
                None => self.body,
            },
            updated_at: now,
            ..self
        }
    }

    /// The row with another count of favorites.
    pub open spec fn counting(self, n: u64) -> ArticleRecord {
        ArticleRecord { favorites_count: n, ..self }
    }
}

impl View for ArticleRow {
    type V = ArticleRecord;

    open spec fn view(&self) -> ArticleRecord {
        ArticleRecord {
            slug: self.slug@,
            title: self.title@,
            description: self.description@,
            body: self.body@,
            tag_list: self.tag_list.deep_view(),
            author_id: self.author_id,
            favorites_count: self.favorites_count,
            created_at: self.created_at,
            updated_at: self.updated_at,
        }
    }
}

impl DeepView for ArticleRow {
    type V = ArticleRecord;

    open spec fn deep_view(&self) -> ArticleRecord {
        self@
    }
}

impl Clone for ArticleRow {
    fn clone(&self) -> (r: Self)
        ensures
            r@ == self@,
    {
        ArticleRow {
            slug: self.slug.clone(),
            title: self.title.clone(),
            description: self.description.clone(),
            body: self.body.clone(),
            tag_list: clone_strings(&self.tag_list),
            author_id: self.author_id,
            favorites_count: self.favorites_count,
            created_at: self.created_at,
            updated_at: self.updated_at,
        }
    }
}

impl ArticleRow {
    /// The article entity that the row and its author's profile make.
    pub fn into_article(self, author: Profile) -> (r: Article)
        ensures
            r@ == self@.article(author@),
    {
        let content = ArticleContent::new(self.title, self.description, self.body, self.tag_list);
        let metadata = ArticleMetadata::new(self.created_at, self.updated_at);
        Article::new(content, self.slug, author, metadata, self.favorites_count)
    }
}

/// A row of the favorites table: the user has favorited the article.
#[derive(Debug, PartialEq, Eq)]
pub struct FavoriteRow {
    pub user_id: UserId,
    pub slug: String,
}

impl View for FavoriteRow {
    type V = (UserId, Seq<char>);

    open spec fn view(&self) -> (UserId, Seq<char>) {
        (self.user_id, self.slug@)
    }
}

impl DeepView for FavoriteRow {
    type V = (UserId, Seq<char>);

    open spec fn deep_view(&self) -> (UserId, Seq<char>) {
        self@
    }
}

/// A row of the followers table: the follower follows the followed.
#[derive(Debug, Clone, Copy, PartialEq, Eq)]
pub struct FollowRow {
    pub follower_id: UserId,
    pub followed_id: UserId,
}

impl View for FollowRow {
    type V = (UserId, UserId);

    open spec fn view(&self) -> (UserId, UserId) {
        (self.follower_id, self.followed_id)
    }
}

impl DeepView for FollowRow {
    type V = (UserId, UserId);

    open spec fn deep_view(&self) -> (UserId, UserId) {
        self@
    }
}

} // verus!
