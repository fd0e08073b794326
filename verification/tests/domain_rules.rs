use realworld::domain::ArticleContent;
use realworld::domain::ArticleQuery;
use realworld::domain::DatabaseError;
use realworld::domain::GetArticleError;
use realworld::domain::GetUserError;
use realworld::domain::PublishArticleError;
use realworld::domain::StorageError;
use realworld::domain::DEFAULT_LIMIT;
use realworld::domain::MAX_LIMIT;
use realworld::text::chars_of;
use realworld::text::slugify;
use realworld::text::str_lt;

const ALL_STORAGE_ERRORS: [StorageError; 6] = [
    StorageError::NotFound,
    StorageError::UniqueViolation,
    StorageError::ForeignKeyViolation,
    StorageError::CheckViolation,
    StorageError::OutOfRange,
    StorageError::Unavailable,
];

#[test]
fn slug_of_the_greeting() {
    assert_eq!(slugify("Hello, World"), "hello-world");
}

#[test]
fn slug_joins_words_with_single_hyphens() {
    assert_eq!(slugify("  Rust & Verus!! "), "rust-verus");
    assert_eq!(slugify("a--b__c"), "a-b-c");
    assert_eq!(slugify("Second post"), "second-post");
    assert_eq!(slugify("already-a-slug"), "already-a-slug");
    assert_eq!(slugify("Top 10 of 2024"), "top-10-of-2024");
    assert_eq!(slugify("X"), "x");
    assert_eq!(slugify("ABCxyz019"), "abcxyz019");
}

#[test]
fn slug_of_nothing_is_empty() {
    assert_eq!(slugify(""), "");
    assert_eq!(slugify("   "), "");
    assert_eq!(slugify("?!"), "");
    assert_eq!(slugify("…"), "");
}

#[test]
fn slug_keeps_ascii_letters_and_digits_only() {
    assert_eq!(slugify("Crème brûlée"), "cr-me-br-l-e");
    assert_eq!(slugify("日本語 Rust"), "rust");
    assert_eq!(slugify("@{[`"), "");
    assert_eq!(slugify("a/z:A[Z"), "a-z-a-z");
}

#[test]
fn slug_is_a_fixed_point_on_slugs() {
    for title in ["Hello, World", "  Rust & Verus!! ", "", "Top 10 of 2024", "Crème brûlée"] {
        let once = slugify(title);
        assert_eq!(slugify(&once), once);
        assert!(once.chars().all(|c| c.is_ascii_lowercase() || c.is_ascii_digit() || c == '-'));
        assert!(!once.starts_with('-') && !once.ends_with('-') && !once.contains("--"));
    }
}

#[test]
fn draft_slug_comes_from_the_title_alone() {
    let a = ArticleContent::new("Hello, World".into(), "x".into(), "y".into(), vec![]);
    let b = ArticleContent::new("hello world".into(), "p".into(), "q".into(), vec!["t".into()]);
    assert_eq!(a.slug(), "hello-world");
    assert_eq!(a.slug(), b.slug());
}

#[test]
fn chars_of_a_string() {
    assert_eq!(chars_of("héllo"), vec!['h', 'é', 'l', 'l', 'o']);
    assert_eq!(chars_of(""), Vec::<char>::new());
}

#[test]
fn lexicographic_order() {
    assert!(str_lt("a", "b"));
    assert!(!str_lt("b", "a"));
    assert!(!str_lt("a", "a"));
    assert!(str_lt("", "a"));
    assert!(!str_lt("", ""));
    assert!(!str_lt("a", ""));
    assert!(str_lt("ab", "abc"));
    assert!(!str_lt("abc", "ab"));
    assert!(str_lt("abc", "abd"));
    assert!(str_lt("Z", "a"));
    assert!(str_lt("a-b", "a0"));
    assert!(str_lt("z", "é"));
    for (a, b) in [("hello", "help"), ("x", "x"), ("", "q"), ("post-010", "post-009"), ("é", "z")] {
        assert_eq!(str_lt(a, b), a < b);
        assert_eq!(str_lt(b, a), b < a);
    }
}

#[test]
fn page_limit_defaults_and_clamps() {
    let q = |limit: Option<i64>, offset: Option<i64>| ArticleQuery {
        author: None,
        favorited: None,
        tag: None,
        limit,
        offset,
    };
    assert_eq!(DEFAULT_LIMIT, 20);
    assert_eq!(MAX_LIMIT, 100);
    assert_eq!(q(None, None).page_limit(), 20);
    assert_eq!(q(Some(0), None).page_limit(), 0);
    assert_eq!(q(Some(1), None).page_limit(), 1);
    assert_eq!(q(Some(100), None).page_limit(), 100);
    assert_eq!(q(Some(101), None).page_limit(), 100);
    assert_eq!(q(Some(i64::MAX), None).page_limit(), 100);
    assert_eq!(q(Some(-1), None).page_limit(), 0);
    assert_eq!(q(Some(i64::MIN), None).page_limit(), 0);
    assert_eq!(q(None, None).page_offset(), 0);
    assert_eq!(q(None, Some(0)).page_offset(), 0);
    assert_eq!(q(None, Some(35)).page_offset(), 35);
    assert_eq!(q(None, Some(-35)).page_offset(), 0);
    assert_eq!(q(None, Some(i64::MAX)).page_offset(), i64::MAX as u64);
}

#[test]
fn not_found_stays_not_found_for_reads() {
    assert_eq!(GetUserError::from_storage(StorageError::NotFound), GetUserError::NotFound);
    assert_eq!(GetArticleError::from_storage(StorageError::NotFound), GetArticleError::NotFound);
    for e in ALL_STORAGE_ERRORS {
        if e != StorageError::NotFound {
            let wrapped = DatabaseError { source: e };
            assert_eq!(GetUserError::from_storage(e), GetUserError::DatabaseError(wrapped));
            assert_eq!(GetArticleError::from_storage(e), GetArticleError::DatabaseError(wrapped));
        }
    }
}

#[test]
fn unique_violation_on_publish_is_a_taken_slug() {
    assert_eq!(
        PublishArticleError::from_storage(StorageError::UniqueViolation),
        PublishArticleError::SlugAlreadyExists
    );
    for e in ALL_STORAGE_ERRORS {
        if e != StorageError::UniqueViolation {
            assert_eq!(
                PublishArticleError::from_storage(e),
                PublishArticleError::DatabaseError(DatabaseError { source: e })
            );
        }
    }
}

#[test]
fn everything_else_is_a_database_error() {
    for e in ALL_STORAGE_ERRORS {
        assert_eq!(DatabaseError::from_storage(e), DatabaseError { source: e });
        let wrapped = DatabaseError { source: e };
        assert_eq!(DatabaseError::from_user_error(GetUserError::DatabaseError(wrapped)), wrapped);
        assert_eq!(
            DatabaseError::from_article_error(GetArticleError::DatabaseError(wrapped)),
            wrapped
        );
        assert_eq!(
            GetArticleError::from_user_error(GetUserError::DatabaseError(wrapped)),
            GetArticleError::DatabaseError(wrapped)
        );
    }
    let missing = DatabaseError { source: StorageError::NotFound };
    assert_eq!(DatabaseError::from_user_error(GetUserError::NotFound), missing);
    assert_eq!(DatabaseError::from_article_error(GetArticleError::NotFound), missing);
    assert_eq!(GetArticleError::from_user_error(GetUserError::NotFound), GetArticleError::NotFound);
}
