//! Domain entities of the blogging backend, each with the mathematical
//! model that the contracts speak of.

pub mod repositories;

use vstd::prelude::*;
use crate::text::slug_of;
use crate::text::slugify;

verus! {

/// Stable identity of a user: the 128 bits of its UUID.
pub type UserId = u128;

/// Seconds on the store's commit-time clock.
pub type Timestamp = u64;

/// Copies an optional string.
pub fn clone_opt(o: &Option<String>) -> (r: Option<String>)
    ensures
        r.deep_view() == o.deep_view(),
{
    match o {
        Some(s) => Some(s.clone()),
        None => None,
    }
}

/// Copies a list of strings.
pub fn clone_strings(v: &Vec<String>) -> (r: Vec<String>)
    ensures
        r.deep_view() == v.deep_view(),
{
    let mut r: Vec<String> = Vec::new();
    let mut i: usize = 0;
    while i < v.len()
        invariant
            i <= v.len(),
            r.len() == i,
            forall|j: int| 0 <= j < i ==> r[j]@ == v[j]@,
        decreases v.len() - i,
    {
        r.push(v[i].clone());
        i += 1;
    }
    assert(r.deep_view() =~= v.deep_view());
    r
}

/// The public-facing subset of a user.
#[derive(Debug, PartialEq, Eq)]
pub struct Profile {
    pub username: String,
    pub bio: Option<String>,
    pub image: Option<String>,
}

pub struct ProfileModel {
    pub username: Seq<char>,
    pub bio: Option<Seq<char>>,
    pub image: Option<Seq<char>>,
}

impl View for Profile {
    type V = ProfileModel;

    open spec fn view(&self) -> ProfileModel {
        ProfileModel {
            username: self.username@,
            bio: self.bio.deep_view(),
            image: self.image.deep_view(),
        }
    }
}

impl DeepView for Profile {
    type V = ProfileModel;

    open spec fn deep_view(&self) -> ProfileModel {
        self@
    }
}

impl Clone for Profile {
    fn clone(&self) -> (r: Self)
        ensures
            r@ == self@,
    {
        Profile {
            username: self.username.clone(),
            bio: clone_opt(&self.bio),
            image: clone_opt(&self.image),
        }
    }
}

impl Profile {
    pub fn new(username: String, bio: Option<String>, image: Option<String>) -> (r: Self)
        ensures
            r@ == (ProfileModel {
                username: username@,
                bio: bio.deep_view(),
                image: image.deep_view(),
            }),
    {
        Profile { username, bio, image }
    }
}


/// A registered user: the only entity that can author, favorite or follow.
#[derive(Debug, PartialEq, Eq)]
pub struct User {
    pub id: UserId,
    pub email: String,
    pub profile: Profile,
}

pub struct UserModel {
    pub id: UserId,
    pub email: Seq<char>,
    pub profile: ProfileModel,
}

impl View for User {
    type V = UserModel;

    open spec fn view(&self) -> UserModel {
        UserModel { id: self.id, email: self.email@, profile: self.profile@ }
    }
}

impl DeepView for User {
    type V = UserModel;

    open spec fn deep_view(&self) -> UserModel {
        self@
    }
}

impl Clone for User {
    fn clone(&self) -> (r: Self)
        ensures
            r@ == self@,
    {
        User { id: self.id, email: self.email.clone(), profile: self.profile.clone() }
    }
}

impl User {
    pub fn new(id: UserId, email: String, profile: Profile) -> (r: Self)
        ensures
            r@ == (UserModel { id, email: email@, profile: profile@ }),
    {
        User { id, email, profile }
    }
}

/// The draft shape of an article: what its author writes.
#[derive(Debug, PartialEq, Eq)]
pub struct ArticleContent {
    pub title: String,
    pub description: String,
    pub body: String,
    pub tag_list: Vec<String>,
}

pub struct ArticleContentModel {
    pub title: Seq<char>,
    pub description: Seq<char>,
    pub body: Seq<char>,
    pub tag_list: Seq<Seq<char>>,
}

impl ArticleContentModel {
    /// The canonical slug of the draft, derived from its title alone.
    pub open spec fn slug(self) -> Seq<char> {
        slug_of(self.title)
    }

    /// The tags as the unordered set that they stand for.
    pub open spec fn tags(self) -> Set<Seq<char>> {
        self.tag_list.to_set()
    }
}

impl View for ArticleContent {
    type V = ArticleContentModel;

    open spec fn view(&self) -> ArticleContentModel {
        ArticleContentModel {
            title: self.title@,
            description: self.description@,
            body: self.body@,
            tag_list: self.tag_list.deep_view(),
        }
    }
}

impl Clone for ArticleContent {
    fn clone(&self) -> (r: Self)
        ensures
            r@ == self@,
    {
        ArticleContent {
            title: self.title.clone(),
            description: self.description.clone(),
            body: self.body.clone(),
            tag_list: clone_strings(&self.tag_list),
        }
    }
}

impl ArticleContent {
    pub fn new(title: String, description: String, body: String, tag_list: Vec<String>) -> (r:
        Self)
        ensures
            r@ == (ArticleContentModel {
                title: title@,
                description: description@,
                body: body@,
                tag_list: tag_list.deep_view(),
            }),
    {
        ArticleContent { title, description, body, tag_list }
    }

    /// Derives the canonical slug from the title.
    pub fn slug(&self) -> (r: String)
        ensures
            r@ == self@.slug(),
    {
        slugify(self.title.as_str())
    }
}

/// When an article was created and when it last changed.
#[derive(Debug, Clone, Copy, PartialEq, Eq)]
pub struct ArticleMetadata {
    pub created_at: Timestamp,
    pub updated_at: Timestamp,
}

impl ArticleMetadata {
    pub fn new(created_at: Timestamp, updated_at: Timestamp) -> (r: Self)
        ensures
            r == (ArticleMetadata { created_at, updated_at }),
    {
        ArticleMetadata { created_at, updated_at }
    }
}

/// A published article with a snapshot of its author's profile.
#[derive(Debug, PartialEq, Eq)]
pub struct Article {
    pub content: ArticleContent,
    pub slug: String,
    pub author: Profile,
    pub metadata: ArticleMetadata,
    pub favorites_count: u64,
}

pub struct ArticleModel {
    pub content: ArticleContentModel,
    pub slug: Seq<char>,
    pub author: ProfileModel,
    pub metadata: ArticleMetadata,
    pub favorites_count: u64,
}

impl View for Article {
    type V = ArticleModel;

    open spec fn view(&self) -> ArticleModel {
        ArticleModel {
            content: self.content@,
            slug: self.slug@,
            author: self.author@,
            metadata: self.metadata,
            favorites_count: self.favorites_count,
        }
    }
}

impl DeepView for Article {
    type V = ArticleModel;

    open spec fn deep_view(&self) -> ArticleModel {
        self@
    }
}

impl Clone for Article {
    fn clone(&self) -> (r: Self)
        ensures
            r@ == self@,
    {
        Article {
            content: self.content.clone(),
            slug: self.slug.clone(),
            author: self.author.clone(),
            metadata: self.metadata,
            favorites_count: self.favorites_count,
        }
    }
}

impl Article {
    pub fn new(
        content: ArticleContent,
        slug: String,
        author: Profile,
        metadata: ArticleMetadata,
        favorites_count: u64,
    ) -> (r: Self)
        ensures
            r@ == (ArticleModel {
                content: content@,
                slug: slug@,
                author: author@,
                metadata,
                favorites_count,
            }),
    {
        Article { content, slug, author, metadata, favorites_count }
    }
}

/// A patch over an article: an absent field is left as it is, a present
/// one replaces the stored value.
#[derive(Debug, PartialEq, Eq)]
pub struct ArticleUpdate {
    pub title: Option<String>,
    pub description: Option<String>,
    pub body: Option<String>,
}

pub struct ArticleUpdateModel {
    pub title: Option<Seq<char>>,
    pub description: Option<Seq<char>>,
    pub body: Option<Seq<char>>,
}

impl View for ArticleUpdate {
    type V = ArticleUpdateModel;

    open spec fn view(&self) -> ArticleUpdateModel {
        ArticleUpdateModel {
            title: self.title.deep_view(),
            description: self.description.deep_view(),
            body: self.body.deep_view(),
        }
    }
}

/// Page size where a query names none.
pub const DEFAULT_LIMIT: u64 = 20;

/// Largest page size a query can have.
pub const MAX_LIMIT: u64 = 100;

/// Filter criteria for a listing; the filters that are present must all hold.
#[derive(Debug, PartialEq, Eq)]
pub struct ArticleQuery {
    pub author: Option<String>,
    pub favorited: Option<String>,
    pub tag: Option<String>,
    pub limit: Option<i64>,
    pub offset: Option<i64>,
}

pub struct ArticleQueryModel {
    pub author: Option<Seq<char>>,
    pub favorited: Option<Seq<char>>,
    pub tag: Option<Seq<char>>,
    pub limit: Option<i64>,
    pub offset: Option<i64>,
}

impl ArticleQueryModel {
    /// The page size in effect: the default where none is given, else the
    /// given one clamped to `0 ..= MAX_LIMIT`.
    pub open spec fn page_limit(self) -> nat {
        match self.limit {
            None => DEFAULT_LIMIT as nat,
            Some(l) => if l < 0 {
                0
            } else if l > MAX_LIMIT {
                MAX_LIMIT as nat
            } else {
                l as nat
            },
        }
    }

    /// The number of leading results to skip: 0 where none is given, and
    /// never negative.
    pub open spec fn page_offset(self) -> nat {
        match self.offset {
            None => 0,
            Some(o) => if o < 0 {
                0
            } else {
                o as nat
            },
        }
    }
}

impl View for ArticleQuery {
    type V = ArticleQueryModel;

    open spec fn view(&self) -> ArticleQueryModel {
        ArticleQueryModel {
            author: self.author.deep_view(),
            favorited: self.favorited.deep_view(),
            tag: self.tag.deep_view(),
            limit: self.limit,
            offset: self.offset,
        }
    }
}

impl ArticleQuery {
    pub fn page_limit(&self) -> (r: u64)
        ensures
            r == self@.page_limit(),
    {
        match self.limit {
            None => DEFAULT_LIMIT,
            Some(l) => if l < 0 {
                0
            } else if l > MAX_LIMIT as i64 {
                MAX_LIMIT
            } else {
                l as u64
            },
        }
    }

    pub fn page_offset(&self) -> (r: u64)
        ensures
            r == self@.page_offset(),
    {
        match self.offset {
            None => 0,
            Some(o) => if o < 0 {
                0
            } else {
                o as u64
            },
        }
    }
}

/// A profile as one viewer sees it.
#[derive(Debug, PartialEq, Eq)]
pub struct ProfileView {
    pub profile: Profile,
    pub following: bool,
    pub viewer: UserId,
}

pub struct ProfileViewModel {
    pub profile: ProfileModel,
    pub following: bool,
    pub viewer: UserId,
}

impl View for ProfileView {
    type V = ProfileViewModel;

    open spec fn view(&self) -> ProfileViewModel {
        ProfileViewModel { profile: self.profile@, following: self.following, viewer: self.viewer }
    }
}

impl DeepView for ProfileView {
    type V = ProfileViewModel;

    open spec fn deep_view(&self) -> ProfileViewModel {
        self@
    }
}

impl Clone for ProfileView {
    fn clone(&self) -> (r: Self)
        ensures
            r@ == self@,
    {
        ProfileView {
            profile: self.profile.clone(),
            following: self.following,
            viewer: self.viewer,
        }
    }
}

impl ProfileView {
    /// Joins a profile with the viewer's follow flag.
    pub fn new(profile: Profile, following: bool, viewer: UserId) -> (r: Self)
        ensures
            r@ == (ProfileViewModel { profile: profile@, following, viewer }),
    {
        ProfileView { profile, following, viewer }
    }
}

/// An article as one viewer sees it.
#[derive(Debug, PartialEq, Eq)]
pub struct ArticleView {
    pub content: ArticleContent,
    pub slug: String,
    pub author: ProfileView,
    pub metadata: ArticleMetadata,
    pub favorited: bool,
    pub favorites_count: u64,
    pub viewer: UserId,
}

pub struct ArticleViewModel {
    pub content: ArticleContentModel,
    pub slug: Seq<char>,
    pub author: ProfileViewModel,
    pub metadata: ArticleMetadata,
    pub favorited: bool,
    pub favorites_count: u64,
    pub viewer: UserId,
}

impl ArticleModel {
    /// The article joined with what a viewer adds to it: the author as the
    /// viewer sees them, and whether the viewer has favorited the article.
    pub open spec fn seen_by(
        self,
        viewer: UserId,
        author: ProfileViewModel,
        favorited: bool,
    ) -> ArticleViewModel {
        ArticleViewModel {
            content: self.content,
            slug: self.slug,
            author,
            metadata: self.metadata,
            favorited,
            favorites_count: self.favorites_count,
            viewer,
        }
    }
}

impl View for ArticleView {
    type V = ArticleViewModel;

    open spec fn view(&self) -> ArticleViewModel {
        ArticleViewModel {
            content: self.content@,
            slug: self.slug@,
            author: self.author@,
            metadata: self.metadata,
            favorited: self.favorited,
            favorites_count: self.favorites_count,
            viewer: self.viewer,
        }
    }
}

impl DeepView for ArticleView {
    type V = ArticleViewModel;

    open spec fn deep_view(&self) -> ArticleViewModel {
        self@
    }
}

impl Clone for ArticleView {
    fn clone(&self) -> (r: Self)
        ensures
            r@ == self@,
    {
        ArticleView {
            content: self.content.clone(),
            slug: self.slug.clone(),
            author: self.author.clone(),
            metadata: self.metadata,
            favorited: self.favorited,
            favorites_count: self.favorites_count,
            viewer: self.viewer,
        }
    }
}

impl ArticleView {
    /// Joins an article with the viewer's personalization.
    pub fn new(article: Article, author: ProfileView, favorited: bool, viewer: UserId) -> (r: Self)
        ensures
            r@ == article@.seen_by(viewer, author@, favorited),
    {
        ArticleView {
            content: article.content,
            slug: article.slug,
            author,
            metadata: article.metadata,
            favorited,
            favorites_count: article.favorites_count,
            viewer,
        }
    }
}

/// What a request to favorite did, with the article's count after it.
#[derive(Debug, Clone, Copy, PartialEq, Eq)]
pub enum FavoriteOutcome {
    NewFavorite(u64),
    AlreadyFavorited(u64),
}

impl FavoriteOutcome {
    pub open spec fn count(self) -> u64 {
        match self {
            FavoriteOutcome::NewFavorite(n) => n,
            FavoriteOutcome::AlreadyFavorited(n) => n,
        }
    }

    /// The article's number of favorites after the operation.
    pub fn favorites_count(&self) -> (r: u64)
        ensures
            r == self.count(),
    {
        match self {
            FavoriteOutcome::NewFavorite(n) => *n,
            FavoriteOutcome::AlreadyFavorited(n) => *n,
        }
    }
}

/// What a request to unfavorite did, with the article's count after it.
#[derive(Debug, Clone, Copy, PartialEq, Eq)]
pub enum UnfavoriteOutcome {
    WasFavorited(u64),
    WasNotFavorited(u64),
}

impl UnfavoriteOutcome {
    pub open spec fn count(self) -> u64 {
        match self {
            UnfavoriteOutcome::WasFavorited(n) => n,
            UnfavoriteOutcome::WasNotFavorited(n) => n,
        }
    }

    /// The article's number of favorites after the operation.
    pub fn favorites_count(&self) -> (r: u64)
        ensures
            r == self.count(),
    {
        match self {
            UnfavoriteOutcome::WasFavorited(n) => *n,
            UnfavoriteOutcome::WasNotFavorited(n) => *n,
        }
    }
}

/// The one error into which every failure of a storage adapter collapses.
#[derive(Debug, Clone, Copy, PartialEq, Eq)]
pub enum StorageError {
    /// No row matches.
    NotFound,
    /// A row with the same key is already there.
    UniqueViolation,
    /// A row refers to a user or an article that does not exist.
    ForeignKeyViolation,
    /// A row breaks a rule on its own columns.
    CheckViolation,
    /// A counter would leave its column's range.
    OutOfRange,
    /// The store could not be reached or gave up the transaction.
    Unavailable,
}

/// A storage failure that no operation classifies further.
#[derive(Debug, Clone, Copy, PartialEq, Eq)]
pub struct DatabaseError {
    pub source: StorageError,
}

#[derive(Debug, Clone, Copy, PartialEq, Eq)]
pub enum GetUserError {
    NotFound,
    DatabaseError(DatabaseError),
}

#[derive(Debug, Clone, Copy, PartialEq, Eq)]
pub enum GetArticleError {
    NotFound,
    DatabaseError(DatabaseError),
}

#[derive(Debug, Clone, Copy, PartialEq, Eq)]
pub enum PublishArticleError {
    SlugAlreadyExists,
    DatabaseError(DatabaseError),
}

impl DatabaseError {
    pub fn from_storage(e: StorageError) -> (r: Self)
        ensures
            r == (DatabaseError { source: e }),
    {
        DatabaseError { source: e }
    }

    pub open spec fn of_user_error(e: GetUserError) -> DatabaseError {
        match e {
            GetUserError::NotFound => DatabaseError { source: StorageError::NotFound },
            GetUserError::DatabaseError(d) => d,
        }
    }

    /// A missing user, where the caller has no error of its own for it, is
    /// a storage failure like any other.
    pub fn from_user_error(e: GetUserError) -> (r: Self)
        ensures
            r == Self::of_user_error(e),
    {
        match e {
            GetUserError::NotFound => DatabaseError { source: StorageError::NotFound },
            GetUserError::DatabaseError(d) => d,
        }
    }

    pub open spec fn of_article_error(e: GetArticleError) -> DatabaseError {
        match e {
            GetArticleError::NotFound => DatabaseError { source: StorageError::NotFound },
            GetArticleError::DatabaseError(d) => d,
        }
    }

    /// A missing article, where the caller has no error of its own for it,
    /// is a storage failure like any other.
    pub fn from_article_error(e: GetArticleError) -> (r: Self)
        ensures
            r == Self::of_article_error(e),
    {
        match e {
            GetArticleError::NotFound => DatabaseError { source: StorageError::NotFound },
            GetArticleError::DatabaseError(d) => d,
        }
    }
}

impl GetUserError {
    pub open spec fn of_storage(e: StorageError) -> GetUserError {
        if e == StorageError::NotFound {
            GetUserError::NotFound
        } else {
            GetUserError::DatabaseError(DatabaseError { source: e })
        }
    }

    /// Keeps the adapter's `NotFound`; anything else is a database error.
    pub fn from_storage(e: StorageError) -> (r: Self)
        ensures
            r == Self::of_storage(e),
    {
        match e {
            StorageError::NotFound => GetUserError::NotFound,
            _ => GetUserError::DatabaseError(DatabaseError { source: e }),
        }
    }
}

impl GetArticleError {
    pub open spec fn of_storage(e: StorageError) -> GetArticleError {
        if e == StorageError::NotFound {
            GetArticleError::NotFound
        } else {
            GetArticleError::DatabaseError(DatabaseError { source: e })
        }
    }

    /// Keeps the adapter's `NotFound`; anything else is a database error.
    pub fn from_storage(e: StorageError) -> (r: Self)
        ensures
            r == Self::of_storage(e),
    {
        match e {
            StorageError::NotFound => GetArticleError::NotFound,
            _ => GetArticleError::DatabaseError(DatabaseError { source: e }),
        }
    }

    pub open spec fn of_user_error(e: GetUserError) -> GetArticleError {
        match e {
            GetUserError::NotFound => GetArticleError::NotFound,
            GetUserError::DatabaseError(d) => GetArticleError::DatabaseError(d),
        }
    }

    /// An article whose author cannot be found cannot be shown either.
    pub fn from_user_error(e: GetUserError) -> (r: Self)
        ensures
            r == Self::of_user_error(e),
    {
        match e {
            GetUserError::NotFound => GetArticleError::NotFound,
            GetUserError::DatabaseError(d) => GetArticleError::DatabaseError(d),
        }
    }
}

impl PublishArticleError {
    pub open spec fn of_storage(e: StorageError) -> PublishArticleError {
        if e == StorageError::UniqueViolation {
            PublishArticleError::SlugAlreadyExists
        } else {
            PublishArticleError::DatabaseError(DatabaseError { source: e })
        }
    }

    /// A violated unique constraint on insert is a slug taken; anything
    /// else is a database error.
    pub fn from_storage(e: StorageError) -> (r: Self)
        ensures
            r == Self::of_storage(e),
    {
        match e {
            StorageError::UniqueViolation => PublishArticleError::SlugAlreadyExists,
            _ => PublishArticleError::DatabaseError(DatabaseError { source: e }),
        }
    }
}

} // verus!
