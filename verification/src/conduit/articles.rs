//! Storage adapter for the articles table.

use vstd::prelude::*;
use crate::db::integrity::lemma_article_lookup;
use crate::db::integrity::lemma_comes_before_asymmetric;
use crate::db::integrity::lemma_delete_article_wf;
use crate::db::integrity::lemma_insert_article_wf;
use crate::db::integrity::lemma_slot;
use crate::db::integrity::lemma_update_article_wf;
use crate::db::integrity::lemma_user_lookup;
use crate::db::models::ArticleRecord;
use crate::db::models::ArticleRow;
use crate::db::models::NewArticle;
use crate::db::models::UserRow;
use crate::db::state::comes_before;
use crate::db::state::StoreState;
use crate::domain::ArticleQueryModel;
use crate::db::store::lemma_to_set_remove;
use crate::db::store::Store;
use crate::domain::ArticleQuery;
use crate::domain::ArticleUpdate;
use crate::domain::StorageError;
use crate::domain::UserId;
use crate::text::str_lt;

verus! {

/// Does `a` stand before `b` in the listing?
fn row_comes_before(a: &ArticleRow, b: &ArticleRow) -> (r: bool)
    ensures
        r == comes_before(a@, b@),
{
    a.created_at > b.created_at || (a.created_at == b.created_at && str_lt(
        a.slug.as_str(),
        b.slug.as_str(),
    ))
}

/// Creates the row of a new article, stamped with the time on the store's
/// clock, and returns it. The slug must be new to the table and the author
/// a user of the store.
pub fn insert(store: &mut Store, new: NewArticle) -> (r: Result<ArticleRow, StorageError>)
    requires
        old(store).wf(),
    ensures
        final(store).wf(),
        final(store)@ == old(store)@.insert_article(new@),
        match old(store)@.insert_error(new@) {
            Some(e) => r == Err::<ArticleRow, StorageError>(e),
            None => r is Ok && r.unwrap()@ == new@.row_at(old(store)@.clock),
        },
{
    if store.article_position(new.slug.as_str()).is_some() {
        return Err(StorageError::UniqueViolation);
    }
    if store.user_position(new.author_id).is_none() {
        return Err(StorageError::ForeignKeyViolation);
    }
    let ghost fresh = new@;
    let row = new.into_row(store.clock);
    let mut p: usize = 0;
    while p < store.articles.len() && row_comes_before(&store.articles[p], &row)
        invariant
            p <= store.articles.len(),
            forall|j: int| 0 <= j < p ==> comes_before(#[trigger] store@.articles[j], row@),
        decreases store.articles.len() - p,
    {
        p += 1;
    }
    proof {
        lemma_insert_article_wf(store@, fresh);
        lemma_slot(store@, row@);
        let q = store@.slot(row@);
        if q < p {
            assert(comes_before(store@.articles[q], row@));
            lemma_comes_before_asymmetric(store@.articles[q], row@);
        } else if p < q {
            assert(comes_before(store@.articles[p as int], row@));
        }
    }
    let ghost rows = store.articles.deep_view();
    store.articles.insert(p, row.clone());
    proof {
        assert(store.articles.deep_view() =~= rows.insert(p as int, row@));
    }
    Ok(row)
}

/// The article with this slug, joined with the row of its author.
pub fn find_one(store: &Store, slug: &str) -> (r: Result<(ArticleRow, UserRow), StorageError>)
    requires
        store.wf(),
    ensures
        match r {
            Ok((article, author)) => store@.find_one(slug@) == Ok::<
                ArticleRecord,
                StorageError,
            >(article@) && store@.user_by_id(article.author_id) == Some(author@),
            Err(e) => store@.find_one(slug@) == Err::<ArticleRecord, StorageError>(e),
        },
{
    match store.article_position(slug) {
        Some(i) => {
            proof {
                lemma_article_lookup(store@, i as int);
                assert(store@.article_sound(store@.articles[i as int]));
            }
            let author = store.user_position(store.articles[i].author_id).unwrap();
            proof {
                lemma_user_lookup(store@, author as int);
            }
            Ok((store.articles[i].clone(), store.users[author].clone()))
        },
        None => Err(StorageError::NotFound),
    }
}

/// Applies a patch to the article with this slug and marks it as updated
/// at the time on the store's clock. The slug itself never changes. Where
/// there is no such article, nothing happens.
pub fn update(store: &mut Store, update: &ArticleUpdate, slug: &str)
    requires
        old(store).wf(),
    ensures
        final(store).wf(),
        final(store)@ == old(store)@.update_article(slug@, update@),
{
    proof {
        lemma_update_article_wf(store@, slug@, update@);
    }
    if let Some(i) = store.article_position(slug) {
        proof {
            lemma_article_lookup(store@, i as int);
        }
        let ghost rows = store.articles.deep_view();
        if let Some(title) = &update.title {
            store.articles[i].title = title.clone();
        }
        if let Some(description) = &update.description {
            store.articles[i].description = description.clone();
        }
        if let Some(body) = &update.body {
            store.articles[i].body = body.clone();
        }
        store.articles[i].updated_at = store.clock;
        proof {
            assert(store.articles.deep_view() =~= rows.update(
                i as int,
                rows[i as int].patched(update@, store.clock),
            ));
        }
    }
}

/// Deletes the article with this slug, and with it every favorite of it.
/// Where there is no such article, nothing happens.
pub fn delete(store: &mut Store, slug: &str)
    requires
        old(store).wf(),
    ensures
        final(store).wf(),
        final(store)@ == old(store)@.delete_article(slug@),
{
    proof {
        lemma_delete_article_wf(store@, slug@);
    }
    if let Some(i) = store.article_position(slug) {
        proof {
            lemma_article_lookup(store@, i as int);
        }
        let ghost rows = store.articles.deep_view();
        let ghost pairs = store@.favorites;
        store.articles.remove(i);
        proof {
            assert(store.articles.deep_view() =~= rows.remove(i as int));
        }
        let wanted = slug.to_owned();
        let mut k: usize = 0;
        while k < store.favorites.len()
            invariant
                k <= store.favorites.len(),
                wanted@ == slug@,
                store.articles.deep_view() == rows.remove(i as int),
                store.users == old(store).users,
                store.followers == old(store).followers,
                store.clock == old(store).clock,
                store.favorites.deep_view().no_duplicates(),
                forall|j: int| 0 <= j < k ==> (#[trigger] store.favorites[j]).slug@ != slug@,
                forall|f: (UserId, Seq<char>)|
                    f.1 != slug@ ==> (store@.favorites.contains(f) == pairs.contains(f)),
                forall|f: (UserId, Seq<char>)| store@.favorites.contains(f) ==> pairs.contains(f),
            decreases store.favorites.len() - k,
        {
            if store.favorites[k].slug == wanted {
                let ghost before = store.favorites.deep_view();
                store.favorites.remove(k);
                proof {
                    assert(store.favorites.deep_view() =~= before.remove(k as int));
                    lemma_to_set_remove(before, k as int);
                }
            } else {
                k += 1;
            }
        }
        proof {
            assert(store@.favorites =~= pairs.filter(|f: (UserId, Seq<char>)| f.1 != slug@)) by {
                assert forall|f: (UserId, Seq<char>)| store@.favorites.contains(f) implies f.1
                    != slug@ by {
                    let j = choose|j: int|
                        0 <= j < store.favorites.deep_view().len() && store.favorites.deep_view()[j]
                            == f;
                    assert(store.favorites[j].slug@ != slug@);
                }
            }
        }
    }
}


/// Does the list hold the string?
fn holds(list: &Vec<String>, s: &String) -> (r: bool)
    ensures
        r == list.deep_view().contains(s@),
{
    let mut i: usize = 0;
    while i < list.len()
        invariant
            i <= list.len(),
            forall|j: int| 0 <= j < i ==> list.deep_view()[j] != s@,
        decreases list.len() - i,
    {
        if list[i] == *s {
            assert(list.deep_view()[i as int] == s@);
            return true;
        }
        i += 1;
    }
    false
}

/// The user whose favorites the query asks for, where it asks for any and
/// there is such a user.
fn named_fan(store: &Store, query: &ArticleQuery) -> (r: Option<UserId>)
    requires
        store.wf(),
    ensures
        r == store@.fan(query@),
{
    match &query.favorited {
        Some(name) => match store.username_position(name.as_str()) {
            Some(i) => {
                proof {
                    lemma_user_lookup(store@, i as int);
                }
                Some(store.users[i].id)
            },
            None => None,
        },
        None => None,
    }
}

/// Does the article at place `i` pass every filter of the query?
fn row_matches(store: &Store, query: &ArticleQuery, fan: Option<UserId>, i: usize) -> (r: bool)
    requires
        store.wf(),
        i < store.articles.len(),
        fan == store@.fan(query@),
    ensures
        r == store@.matches(query@, store@.articles[i as int]),
{
    let row = &store.articles[i];
    if let Some(name) = &query.author {
        match store.user_position(row.author_id) {
            Some(k) => {
                proof {
                    lemma_user_lookup(store@, k as int);
                }
                if !(store.users[k].username == *name) {
                    return false;
                }
            },
            None => {
                return false;
            },
        }
    }
    if query.favorited.is_some() {
        match fan {
            Some(id) => {
                if store.favorite_position(id, row.slug.as_str()).is_none() {
                    return false;
                }
            },
            None => {
                return false;
            },
        }
    }
    if let Some(tag) = &query.tag {
        if !holds(&row.tag_list, tag) {
            return false;
        }
    }
    true
}

/// What passes the filters among some rows: what passes among all but the
/// last, followed by the last if it passes.
pub proof fn lemma_matching_step(s: StoreState, rows: Seq<ArticleRecord>, query: ArticleQueryModel)
    ensures
        rows.len() == 0 ==> s.matching_in(rows, query) == rows,
        rows.len() > 0 ==> s.matching_in(rows, query) == if s.matches(query, rows.last()) {
            s.matching_in(rows.drop_last(), query).push(rows.last())
        } else {
            s.matching_in(rows.drop_last(), query)
        },
{
    reveal(Seq::filter);
}

/// What passes the filters among the first rows of a table is the start of
/// what passes among more of them.
proof fn lemma_matching_prefix(
    s: StoreState,
    rows: Seq<ArticleRecord>,
    query: ArticleQueryModel,
    i: int,
    n: int,
)
    requires
        0 <= i <= n <= rows.len(),
    ensures
        s.matching_in(rows.take(i), query).len() <= s.matching_in(rows.take(n), query).len(),
        s.matching_in(rows.take(n), query).take(s.matching_in(rows.take(i), query).len() as int)
            == s.matching_in(rows.take(i), query),
    decreases n - i,
{
    if i < n {
        lemma_matching_prefix(s, rows, query, i, n - 1);
        lemma_matching_step(s, rows.take(n), query);
        assert(rows.take(n).drop_last() =~= rows.take(n - 1));
        let short = s.matching_in(rows.take(i), query);
        let less = s.matching_in(rows.take(n - 1), query);
        let more = s.matching_in(rows.take(n), query);
        assert(more == less || more == less.push(rows[n - 1]));
        assert(more.take(short.len() as int) =~= less.take(short.len() as int));
    } else {
        let short = s.matching_in(rows.take(i), query);
        assert(short.take(short.len() as int) =~= short);
    }
}

/// The page of articles that the query asks for, in listing order, each
/// joined with the row of its author.
pub fn find(store: &Store, query: &ArticleQuery) -> (r: Vec<(ArticleRow, UserRow)>)
    requires
        store.wf(),
    ensures
        r.len() == store@.page(query@).len(),
        forall|j: int|
            0 <= j < r.len() ==> {
                &&& (#[trigger] r[j]).0@ == store@.page(query@)[j]
                &&& store@.user_by_id(r[j].0.author_id) == Some(r[j].1@)
            },
{
    let limit = query.page_limit();
    let offset = query.page_offset();
    let fan = named_fan(store, query);
    let mut out: Vec<(ArticleRow, UserRow)> = Vec::new();
    let mut seen: u64 = 0;
    let mut i: usize = 0;
    proof {
        lemma_matching_step(store@, store@.articles.take(0), query@);
    }
    while i < store.articles.len() && seen < offset + limit
        invariant
            store.wf(),
            limit == query@.page_limit(),
            offset == query@.page_offset(),
            fan == store@.fan(query@),
            i <= store.articles.len(),
            seen <= i,
            seen == store@.matching_in(store@.articles.take(i as int), query@).len(),
            out.len() == StoreState::page_of(
                store@.matching_in(store@.articles.take(i as int), query@),
                query@,
            ).len(),
            forall|j: int|
                0 <= j < out.len() ==> {
                    &&& (#[trigger] out[j]).0@ == StoreState::page_of(
                        store@.matching_in(store@.articles.take(i as int), query@),
                        query@,
                    )[j]
                    &&& store@.user_by_id(out[j].0.author_id) == Some(out[j].1@)
                },
        decreases store.articles.len() - i,
    {
        proof {
            lemma_matching_step(store@, store@.articles.take(i + 1), query@);
            assert(store@.articles.take(i + 1).drop_last() =~= store@.articles.take(i as int));
        }
        if row_matches(store, query, fan, i) {
            if seen >= offset {
                proof {
                    assert(store@.article_sound(store@.articles[i as int]));
                }
                let author = store.user_position(store.articles[i].author_id).unwrap();
                proof {
                    lemma_user_lookup(store@, author as int);
                }
                out.push((store.articles[i].clone(), store.users[author].clone()));
            }
            seen += 1;
        }
        i += 1;
    }
    proof {
        let n = store@.articles.len() as int;
        lemma_matching_prefix(store@, store@.articles, query@, i as int, n);
        assert(store@.articles.take(n) =~= store@.articles);
        let short = store@.matching_in(store@.articles.take(i as int), query@);
        let all = store@.matching(query@);
        assert(StoreState::page_of(all, query@) =~= StoreState::page_of(short, query@)) by {
            if i < n {
                assert(all.take(short.len() as int) == short);
            }
        }
    }
    out
}

} // verus!
