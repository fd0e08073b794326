use realworld::conduit::articles_repository::Repository;
use realworld::domain::repositories::ArticleRepository;
use realworld::domain::repositories::UsersRepository;
use realworld::conduit::favorites;
use realworld::conduit::followers;
use realworld::conduit::users;
use realworld::db::models::UserRow;
use realworld::db::store::Store;
use realworld::domain::Article;
use realworld::domain::ArticleContent;
use realworld::domain::ArticleQuery;
use realworld::domain::ArticleUpdate;
use realworld::domain::DatabaseError;
use realworld::domain::FavoriteOutcome;
use realworld::domain::GetArticleError;
use realworld::domain::GetUserError;
use realworld::domain::Profile;
use realworld::domain::PublishArticleError;
use realworld::domain::StorageError;
use realworld::domain::UnfavoriteOutcome;
use realworld::domain::User;
use uuid::Uuid;

const NOW: u64 = 1_700_000_000;

fn id_of(text: &str) -> u128 {
    Uuid::parse_str(text).unwrap().as_u128()
}

fn user(id: &str, name: &str) -> User {
    User::new(
        id_of(id),
        format!("{}@example.com", name),
        Profile::new(name.to_string(), None, None),
    )
}

fn alice() -> User {
    user("11111111-1111-1111-1111-111111111111", "alice")
}

fn bob() -> User {
    user("22222222-2222-2222-2222-222222222222", "bob")
}

fn viewer() -> User {
    user("33333333-3333-3333-3333-333333333333", "vera")
}

fn draft(title: &str) -> ArticleContent {
    ArticleContent::new(
        title.to_string(),
        "greet".to_string(),
        "…".to_string(),
        vec!["intro".to_string()],
    )
}

fn seeded() -> Store {
    let mut store = Store::new();
    store.advance_clock(NOW);
    for u in [alice(), bob(), viewer()] {
        assert_eq!(users::insert(&mut store, UserRow::from_user(&u)), Ok(()));
    }
    store
}

fn no_filter() -> ArticleQuery {
    ArticleQuery { author: None, favorited: None, tag: None, limit: None, offset: None }
}

fn slugs(articles: &[Article]) -> Vec<String> {
    articles.iter().map(|a| a.slug.clone()).collect()
}

#[test]
fn publish_and_read_back() {
    let mut store = seeded();
    let mut repo = Repository(&mut store);
    let a = repo.publish(draft("Hello, World"), &alice()).unwrap();
    assert_eq!(a.slug, "hello-world");
    assert_eq!(a.favorites_count, 0);
    assert_eq!(a.author.username, "alice");
    assert!(a.metadata.created_at <= NOW && NOW <= a.metadata.updated_at);
    assert_eq!(a.content, draft("Hello, World"));
    let read = repo.get_by_slug("hello-world").unwrap();
    assert_eq!(read, a);
}

#[test]
fn favorite_idempotence() {
    let mut store = seeded();
    let mut repo = Repository(&mut store);
    let a = repo.publish(draft("Hello, World"), &alice()).unwrap();
    assert_eq!(repo.favorite(&a, &alice()), Ok(FavoriteOutcome::NewFavorite(1)));
    let once = repo.get_by_slug("hello-world").unwrap();
    assert_eq!(repo.favorite(&a, &alice()), Ok(FavoriteOutcome::AlreadyFavorited(1)));
    let twice = repo.get_by_slug("hello-world").unwrap();
    assert_eq!(once, twice);
    assert_eq!(twice.favorites_count, 1);
    assert!(favorites::is_favorite(repo.0, alice().id, "hello-world"));
}

#[test]
fn unfavorite_round_trip() {
    let mut store = seeded();
    let mut repo = Repository(&mut store);
    let a = repo.publish(draft("Hello, World"), &alice()).unwrap();
    assert_eq!(repo.favorite(&a, &alice()), Ok(FavoriteOutcome::NewFavorite(1)));
    assert_eq!(repo.unfavorite(&a, &alice()), Ok(UnfavoriteOutcome::WasFavorited(0)));
    assert_eq!(repo.unfavorite(&a, &alice()), Ok(UnfavoriteOutcome::WasNotFavorited(0)));
    assert!(!favorites::is_favorite(repo.0, alice().id, "hello-world"));
    assert_eq!(repo.get_by_slug("hello-world").unwrap().favorites_count, 0);
    assert_eq!(repo.get_by_slug("hello-world").unwrap(), a);
}

#[test]
fn batched_view() {
    let mut store = seeded();
    let mut repo = Repository(&mut store);
    let a1 = repo.publish(draft("Hello, World"), &alice()).unwrap();
    let a2 = repo.publish(draft("Second post"), &alice()).unwrap();
    assert_eq!(a2.slug, "second-post");
    assert_eq!(repo.favorite(&a2, &viewer()), Ok(FavoriteOutcome::NewFavorite(1)));
    let a2 = repo.get_by_slug("second-post").unwrap();
    let views = repo.get_articles_views(&viewer(), vec![a1.clone(), a2.clone()]).unwrap();
    assert_eq!(views.len(), 2);
    assert_eq!(views[0].slug, "hello-world");
    assert_eq!(views[1].slug, "second-post");
    assert_eq!(views[0].favorited, false);
    assert_eq!(views[1].favorited, true);
    assert_eq!(views[1].favorites_count, 1);
    assert_eq!(views[0].viewer, viewer().id);
    assert_eq!(views[0].author.profile.username, "alice");
    assert_eq!(views[0].author.following, false);
    assert_eq!(views[0].content, a1.content);
    assert_eq!(views[1].metadata, a2.metadata);
}

#[test]
fn batched_view_keeps_the_order_given() {
    let mut store = seeded();
    let mut repo = Repository(&mut store);
    let a1 = repo.publish(draft("Hello, World"), &alice()).unwrap();
    let a2 = repo.publish(draft("Second post"), &bob()).unwrap();
    let a3 = repo.publish(draft("Third"), &alice()).unwrap();
    repo.favorite(&a1, &viewer()).unwrap();
    repo.favorite(&a3, &viewer()).unwrap();
    let views = repo.get_articles_views(&viewer(), vec![a3, a1.clone(), a2, a1]).unwrap();
    let got: Vec<(&str, bool)> = views.iter().map(|v| (v.slug.as_str(), v.favorited)).collect();
    assert_eq!(
        got,
        vec![("third", true), ("hello-world", true), ("second-post", false), ("hello-world", true)]
    );
    for v in &views {
        assert_eq!(v.favorited, favorites::is_favorite(repo.0, viewer().id, &v.slug));
    }
}

#[test]
fn batched_view_of_nothing() {
    let mut store = seeded();
    let repo = Repository(&mut store);
    assert_eq!(repo.get_articles_views(&viewer(), vec![]), Ok(vec![]));
}

#[test]
fn batched_view_fails_as_a_whole_when_an_author_is_gone() {
    let mut store = seeded();
    let mut repo = Repository(&mut store);
    let a1 = repo.publish(draft("Hello, World"), &alice()).unwrap();
    let mut orphan = a1.clone();
    orphan.author.username = "nobody".to_string();
    assert_eq!(
        repo.get_articles_views(&viewer(), vec![a1, orphan]),
        Err(DatabaseError { source: StorageError::NotFound })
    );
}

#[test]
fn single_view() {
    let mut store = seeded();
    followers::follow(&mut store, viewer().id, alice().id).unwrap();
    let mut repo = Repository(&mut store);
    let a = repo.publish(draft("Hello, World"), &alice()).unwrap();
    repo.favorite(&a, &viewer()).unwrap();
    let a = repo.get_by_slug("hello-world").unwrap();
    let seen = repo.get_article_view(&viewer(), a.clone()).unwrap();
    assert_eq!(seen.slug, "hello-world");
    assert_eq!(seen.content, a.content);
    assert_eq!(seen.metadata, a.metadata);
    assert_eq!(seen.favorites_count, 1);
    assert!(seen.favorited);
    assert!(seen.author.following);
    assert_eq!(seen.author.viewer, viewer().id);
    assert_eq!(seen.viewer, viewer().id);
    let by_bob = repo.get_article_view(&bob(), a).unwrap();
    assert!(!by_bob.favorited);
    assert!(!by_bob.author.following);
}

#[test]
fn single_view_of_an_article_whose_author_is_gone() {
    let mut store = seeded();
    let mut repo = Repository(&mut store);
    let mut a = repo.publish(draft("Hello, World"), &alice()).unwrap();
    a.author.username = "nobody".to_string();
    assert_eq!(repo.get_article_view(&viewer(), a), Err(GetArticleError::NotFound));
}

#[test]
fn follow_aware_profile_view() {
    let mut store = seeded();
    assert_eq!(followers::follow(&mut store, viewer().id, alice().id), Ok(()));
    let repo = Repository(&mut store);
    let on_alice = repo.get_view(&viewer(), "alice").unwrap();
    assert_eq!(on_alice.following, true);
    assert_eq!(on_alice.profile, alice().profile);
    assert_eq!(on_alice.viewer, viewer().id);
    assert_eq!(repo.get_view(&viewer(), "bob").unwrap().following, false);
    assert_eq!(repo.get_view(&alice(), "vera").unwrap().following, false);
}

#[test]
fn own_profile_is_not_followed() {
    let mut store = seeded();
    followers::follow(&mut store, viewer().id, alice().id).unwrap();
    followers::follow(&mut store, alice().id, viewer().id).unwrap();
    let repo = Repository(&mut store);
    assert_eq!(repo.get_view(&viewer(), "vera").unwrap().following, false);
    assert_eq!(repo.get_view(&alice(), "alice").unwrap().following, false);
}

#[test]
fn profile_view_of_an_unknown_user() {
    let mut store = seeded();
    let repo = Repository(&mut store);
    assert_eq!(repo.get_view(&viewer(), "nobody"), Err(GetUserError::NotFound));
}

#[test]
fn cascade_on_delete() {
    let mut store = seeded();
    let mut repo = Repository(&mut store);
    let a = repo.publish(draft("Hello, World"), &alice()).unwrap();
    let other = repo.publish(draft("Second post"), &alice()).unwrap();
    assert_eq!(repo.favorite(&a, &viewer()), Ok(FavoriteOutcome::NewFavorite(1)));
    assert_eq!(repo.favorite(&other, &viewer()), Ok(FavoriteOutcome::NewFavorite(1)));
    assert_eq!(repo.delete_article(&a), Ok(()));
    assert_eq!(repo.get_by_slug("hello-world"), Err(GetArticleError::NotFound));
    for u in [alice(), bob(), viewer()] {
        assert!(!favorites::is_favorite(repo.0, u.id, "hello-world"));
    }
    assert_eq!(
        repo.favorite(&a, &viewer()),
        Err(DatabaseError { source: StorageError::ForeignKeyViolation })
    );
    assert_eq!(
        repo.unfavorite(&a, &viewer()),
        Err(DatabaseError { source: StorageError::NotFound })
    );
    assert!(favorites::is_favorite(repo.0, viewer().id, "second-post"));
    assert_eq!(repo.get_by_slug("second-post").unwrap().favorites_count, 1);
    assert_eq!(repo.delete_article(&a), Ok(()));
    let again = repo.publish(draft("Hello, World"), &bob()).unwrap();
    assert_eq!(again.favorites_count, 0);
    assert_eq!(repo.favorite(&again, &viewer()), Ok(FavoriteOutcome::NewFavorite(1)));
}

#[test]
fn count_is_the_number_of_users_who_favorited() {
    let mut store = seeded();
    let mut repo = Repository(&mut store);
    let a = repo.publish(draft("Hello, World"), &alice()).unwrap();
    let b = repo.publish(draft("Second post"), &bob()).unwrap();
    assert_eq!(repo.favorite(&a, &alice()), Ok(FavoriteOutcome::NewFavorite(1)));
    assert_eq!(repo.favorite(&a, &bob()), Ok(FavoriteOutcome::NewFavorite(2)));
    assert_eq!(repo.favorite(&b, &bob()), Ok(FavoriteOutcome::NewFavorite(1)));
    assert_eq!(repo.favorite(&a, &viewer()), Ok(FavoriteOutcome::NewFavorite(3)));
    assert_eq!(repo.favorite(&a, &bob()), Ok(FavoriteOutcome::AlreadyFavorited(3)));
    assert_eq!(repo.unfavorite(&a, &alice()), Ok(UnfavoriteOutcome::WasFavorited(2)));
    for slug in ["hello-world", "second-post"] {
        let fans = [alice(), bob(), viewer()]
            .iter()
            .filter(|u| favorites::is_favorite(repo.0, u.id, slug))
            .count() as u64;
        assert_eq!(repo.get_by_slug(slug).unwrap().favorites_count, fans);
    }
    assert_eq!(repo.get_by_slug("hello-world").unwrap().favorites_count, 2);
    assert_eq!(repo.get_by_slug("second-post").unwrap().favorites_count, 1);
}

#[test]
fn favorite_needs_user_and_article() {
    let mut store = seeded();
    let mut repo = Repository(&mut store);
    let a = repo.publish(draft("Hello, World"), &alice()).unwrap();
    let stranger = user("44444444-4444-4444-4444-444444444444", "zed");
    assert_eq!(
        repo.favorite(&a, &stranger),
        Err(DatabaseError { source: StorageError::ForeignKeyViolation })
    );
    assert_eq!(repo.unfavorite(&a, &stranger), Ok(UnfavoriteOutcome::WasNotFavorited(0)));
    assert_eq!(repo.get_by_slug("hello-world").unwrap().favorites_count, 0);
}

#[test]
fn publish_rejects_a_taken_slug() {
    let mut store = seeded();
    let mut repo = Repository(&mut store);
    repo.publish(draft("Hello, World"), &alice()).unwrap();
    assert_eq!(
        repo.publish(draft("hello world"), &bob()),
        Err(PublishArticleError::SlugAlreadyExists)
    );
    assert_eq!(repo.get_by_slug("hello-world").unwrap().author.username, "alice");
    assert_eq!(repo.find_articles(no_filter()).unwrap().len(), 1);
}

#[test]
fn publish_rejects_an_unknown_author() {
    let mut store = seeded();
    let mut repo = Repository(&mut store);
    let stranger = user("44444444-4444-4444-4444-444444444444", "zed");
    assert_eq!(
        repo.publish(draft("Hello, World"), &stranger),
        Err(PublishArticleError::DatabaseError(DatabaseError {
            source: StorageError::ForeignKeyViolation
        }))
    );
    assert_eq!(repo.get_by_slug("hello-world"), Err(GetArticleError::NotFound));
}

#[test]
fn get_by_id_finds_the_user() {
    let mut store = seeded();
    let repo = Repository(&mut store);
    assert_eq!(repo.get_by_id(alice().id), Ok(alice()));
    assert_eq!(repo.get_by_id(bob().id), Ok(bob()));
    assert_eq!(repo.get_by_id(7), Err(GetUserError::NotFound));
}

#[test]
fn get_by_slug_reads_the_current_author_profile() {
    let mut store = Store::new();
    let mut carol = user("55555555-5555-5555-5555-555555555555", "carol");
    carol.profile.bio = Some("writes".to_string());
    carol.profile.image = Some("https://example.com/c.png".to_string());
    users::insert(&mut store, UserRow::from_user(&carol)).unwrap();
    let mut repo = Repository(&mut store);
    let mut stale = carol.clone();
    stale.profile.bio = None;
    let a = repo.publish(draft("Hello, World"), &stale).unwrap();
    assert_eq!(a.author, stale.profile);
    assert_eq!(repo.get_by_slug("hello-world").unwrap().author, carol.profile);
}

#[test]
fn update_patches_present_fields_and_keeps_the_slug() {
    let mut store = seeded();
    let mut repo = Repository(&mut store);
    let a = repo.publish(draft("Hello, World"), &alice()).unwrap();
    repo.0.advance_clock(NOW + 60);
    let patch = ArticleUpdate {
        title: Some("Goodbye".to_string()),
        description: None,
        body: Some("new body".to_string()),
    };
    let b = repo.update_article(a.clone(), patch).unwrap();
    assert_eq!(b.slug, "hello-world");
    assert_eq!(b.content.title, "Goodbye");
    assert_eq!(b.content.description, "greet");
    assert_eq!(b.content.body, "new body");
    assert_eq!(b.content.tag_list, a.content.tag_list);
    assert_eq!(b.metadata.created_at, NOW);
    assert_eq!(b.metadata.updated_at, NOW + 60);
    assert_eq!(b.author, a.author);
    assert_eq!(repo.get_by_slug("hello-world").unwrap(), b);
    assert_eq!(repo.get_by_slug("goodbye"), Err(GetArticleError::NotFound));
}

#[test]
fn update_with_an_empty_patch_only_refreshes_the_time() {
    let mut store = seeded();
    let mut repo = Repository(&mut store);
    let a = repo.publish(draft("Hello, World"), &alice()).unwrap();
    repo.favorite(&a, &bob()).unwrap();
    repo.0.advance_clock(NOW + 5);
    let patch = ArticleUpdate { title: None, description: None, body: None };
    let b = repo.update_article(a.clone(), patch).unwrap();
    assert_eq!(b.content, a.content);
    assert_eq!(b.favorites_count, 1);
    assert_eq!(b.metadata.created_at, NOW);
    assert_eq!(b.metadata.updated_at, NOW + 5);
}

#[test]
fn update_of_a_missing_article() {
    let mut store = seeded();
    let mut repo = Repository(&mut store);
    let a = repo.publish(draft("Hello, World"), &alice()).unwrap();
    repo.delete_article(&a).unwrap();
    let patch = ArticleUpdate { title: Some("x".to_string()), description: None, body: None };
    assert_eq!(
        repo.update_article(a, patch),
        Err(DatabaseError { source: StorageError::NotFound })
    );
    assert_eq!(repo.find_articles(no_filter()), Ok(vec![]));
}

#[test]
fn listing_is_newest_first_then_by_slug() {
    let mut store = seeded();
    let mut repo = Repository(&mut store);
    repo.publish(draft("Delta"), &alice()).unwrap();
    repo.publish(draft("Alpha"), &bob()).unwrap();
    repo.0.advance_clock(NOW + 10);
    repo.publish(draft("Zulu"), &alice()).unwrap();
    repo.publish(draft("Mike"), &alice()).unwrap();
    repo.0.advance_clock(NOW + 20);
    repo.publish(draft("Bravo"), &bob()).unwrap();
    repo.0.advance_clock(NOW + 5);
    repo.publish(draft("Able"), &bob()).unwrap();
    let all = repo.find_articles(no_filter()).unwrap();
    assert_eq!(slugs(&all), vec!["able", "bravo", "mike", "zulu", "alpha", "delta"]);
    let times: Vec<u64> = all.iter().map(|a| a.metadata.created_at).collect();
    assert_eq!(times, vec![NOW + 20, NOW + 20, NOW + 10, NOW + 10, NOW, NOW]);
    assert_eq!(all[1].author.username, "bob");
    assert_eq!(all[2].author.username, "alice");
}

#[test]
fn listing_filters_are_conjunctive() {
    let mut store = seeded();
    let mut repo = Repository(&mut store);
    let tagged = |title: &str, tags: &[&str]| {
        ArticleContent::new(
            title.to_string(),
            "d".to_string(),
            "b".to_string(),
            tags.iter().map(|t| t.to_string()).collect(),
        )
    };
    let a = repo.publish(tagged("One", &["rust", "intro"]), &alice()).unwrap();
    let b = repo.publish(tagged("Two", &["rust"]), &bob()).unwrap();
    let c = repo.publish(tagged("Three", &[]), &alice()).unwrap();
    repo.favorite(&a, &viewer()).unwrap();
    repo.favorite(&b, &viewer()).unwrap();
    repo.favorite(&c, &bob()).unwrap();
    let ask = |author: Option<&str>, favorited: Option<&str>, tag: Option<&str>| ArticleQuery {
        author: author.map(|s| s.to_string()),
        favorited: favorited.map(|s| s.to_string()),
        tag: tag.map(|s| s.to_string()),
        limit: None,
        offset: None,
    };
    let found = |repo: &Repository, q: ArticleQuery| slugs(&repo.find_articles(q).unwrap());
    assert_eq!(found(&repo, ask(None, None, None)), vec!["one", "three", "two"]);
    assert_eq!(found(&repo, ask(Some("alice"), None, None)), vec!["one", "three"]);
    assert_eq!(found(&repo, ask(Some("bob"), None, None)), vec!["two"]);
    assert_eq!(found(&repo, ask(Some("nobody"), None, None)), Vec::<String>::new());
    assert_eq!(found(&repo, ask(None, None, Some("rust"))), vec!["one", "two"]);
    assert_eq!(found(&repo, ask(None, None, Some("intro"))), vec!["one"]);
    assert_eq!(found(&repo, ask(None, None, Some("none"))), Vec::<String>::new());
    assert_eq!(found(&repo, ask(None, Some("vera"), None)), vec!["one", "two"]);
    assert_eq!(found(&repo, ask(None, Some("bob"), None)), vec!["three"]);
    assert_eq!(found(&repo, ask(None, Some("alice"), None)), Vec::<String>::new());
    assert_eq!(found(&repo, ask(None, Some("nobody"), None)), Vec::<String>::new());
    assert_eq!(found(&repo, ask(Some("alice"), Some("vera"), None)), vec!["one"]);
    assert_eq!(found(&repo, ask(Some("bob"), Some("vera"), Some("rust"))), vec!["two"]);
    assert_eq!(found(&repo, ask(Some("alice"), Some("vera"), Some("rust"))), vec!["one"]);
    assert_eq!(
        found(&repo, ask(Some("alice"), Some("bob"), Some("rust"))),
        Vec::<String>::new()
    );
    let listed = repo.find_articles(ask(None, Some("vera"), None)).unwrap();
    assert_eq!(listed[0].favorites_count, 1);
    assert_eq!(listed[0], repo.get_by_slug("one").unwrap());
}

#[test]
fn listing_pages() {
    let mut store = seeded();
    let mut repo = Repository(&mut store);
    for i in 0..130 {
        repo.publish(draft(&format!("Post {:03}", i)), &alice()).unwrap();
    }
    let page = |limit: Option<i64>, offset: Option<i64>| ArticleQuery {
        author: None,
        favorited: None,
        tag: None,
        limit,
        offset,
    };
    let found = |repo: &Repository, q: ArticleQuery| slugs(&repo.find_articles(q).unwrap());
    let expect = |from: usize, to: usize| -> Vec<String> {
        (from..to).map(|i| format!("post-{:03}", i)).collect()
    };
    assert_eq!(found(&repo, page(None, None)), expect(0, 20));
    assert_eq!(found(&repo, page(None, Some(125))), expect(125, 130));
    assert_eq!(found(&repo, page(Some(3), Some(2))), expect(2, 5));
    assert_eq!(found(&repo, page(Some(0), None)), expect(0, 0));
    assert_eq!(found(&repo, page(Some(-7), None)), expect(0, 0));
    assert_eq!(found(&repo, page(Some(100), None)), expect(0, 100));
    assert_eq!(found(&repo, page(Some(101), None)), expect(0, 100));
    assert_eq!(found(&repo, page(Some(i64::MAX), Some(50))), expect(50, 130));
    assert_eq!(found(&repo, page(Some(5), Some(-3))), expect(0, 5));
    assert_eq!(found(&repo, page(Some(5), Some(130))), expect(0, 0));
    assert_eq!(found(&repo, page(Some(5), Some(i64::MAX))), expect(0, 0));
    assert_eq!(found(&repo, page(Some(5), Some(129))), expect(129, 130));
}
