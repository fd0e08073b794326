//! The executable store: four tables held in memory, and a clock.

use vstd::prelude::*;
use crate::db::integrity::lemma_advance_clock_wf;
use crate::db::integrity::lemma_empty_wf;
use crate::db::models::ArticleRow;
use crate::db::models::FavoriteRow;
use crate::db::models::FollowRow;
use crate::db::models::UserRow;
use crate::db::state::StoreState;
use crate::domain::Timestamp;
use crate::domain::UserId;

verus! {

/// A relational store held in memory.
///
/// Its tables can be reached only through the storage adapters, which keep
/// the integrity rules of [`StoreState`].
pub struct Store {
    pub(crate) users: Vec<UserRow>,
    pub(crate) articles: Vec<ArticleRow>,
    pub(crate) favorites: Vec<FavoriteRow>,
    pub(crate) followers: Vec<FollowRow>,
    pub(crate) clock: Timestamp,
}

impl View for Store {
    type V = StoreState;

    open(crate) spec fn view(&self) -> StoreState {
        StoreState {
            users: self.users.deep_view(),
            articles: self.articles.deep_view(),
            favorites: self.favorites.deep_view().to_set(),
            followers: self.followers.deep_view().to_set(),
            clock: self.clock,
        }
    }
}

impl Store {
    /// The store is a valid one: its state keeps the integrity rules, and
    /// neither pair table holds a row twice.
    pub open(crate) spec fn wf(&self) -> bool {
        &&& self@.wf()
        &&& self.favorites.deep_view().no_duplicates()
        &&& self.followers.deep_view().no_duplicates()
    }

    /// A store with no rows, at the start of time.
    pub fn new() -> (r: Self)
        ensures
            r.wf(),
            r@ == StoreState::empty(),
    {
        let r = Store {
            users: Vec::new(),
            articles: Vec::new(),
            favorites: Vec::new(),
            followers: Vec::new(),
            clock: 0,
        };
        proof {
            lemma_empty_wf();
            assert(r@.users =~= StoreState::empty().users);
            assert(r@.articles =~= StoreState::empty().articles);
            assert(r@.favorites =~= StoreState::empty().favorites);
            assert(r@.followers =~= StoreState::empty().followers);
        }
        r
    }

    /// The commit time of the latest operation.
    pub fn now(&self) -> (r: Timestamp)
        ensures
            r == self@.clock,
    {
        self.clock
    }

    /// Tells the clock that it is `now`. The clock never runs backwards.
    pub fn advance_clock(&mut self, now: Timestamp)
        requires
            old(self).wf(),
        ensures
            final(self).wf(),
            final(self)@ == old(self)@.advance_clock(now),
    {
        proof {
            lemma_advance_clock_wf(self@, now);
        }
        if now > self.clock {
            self.clock = now;
        }
    }
}


/// The set of a sequence after one more item.
pub proof fn lemma_to_set_push<T>(s: Seq<T>, x: T)
    ensures
        s.push(x).to_set() =~= s.to_set().insert(x),
{
    let t = s.push(x);
    assert forall|y: T| t.to_set().contains(y) == s.to_set().insert(x).contains(y) by {
        if t.contains(y) {
            let i = choose|i: int| 0 <= i < t.len() && t[i] == y;
            if i < s.len() {
                assert(s[i] == y);
            }
        }
        if s.contains(y) {
            let i = choose|i: int| 0 <= i < s.len() && s[i] == y;
            assert(t[i] == y);
        }
        if y == x {
            assert(t[s.len() as int] == y);
        }
    }
}

/// A sequence without duplicates stays so after an item that it did not
/// hold.
pub proof fn lemma_no_duplicates_push<T>(s: Seq<T>, x: T)
    requires
        s.no_duplicates(),
        !s.contains(x),
    ensures
        s.push(x).no_duplicates(),
{
    let t = s.push(x);
    assert forall|i: int, j: int| 0 <= i < t.len() && 0 <= j < t.len() && i != j implies t[i]
        != t[j] by {
        if i < s.len() && j < s.len() {
        } else if i < s.len() {
            assert(s[i] == t[i]);
        } else {
            assert(s[j] == t[j]);
        }
    }
}

/// The set of a sequence without duplicates after one item has left.
pub proof fn lemma_to_set_remove<T>(s: Seq<T>, i: int)
    requires
        s.no_duplicates(),
        0 <= i < s.len(),
    ensures
        s.remove(i).no_duplicates(),
        s.remove(i).to_set() =~= s.to_set().remove(s[i]),
{
    let t = s.remove(i);
    s.remove_ensures(i);
    assert forall|y: T| t.to_set().contains(y) == s.to_set().remove(s[i]).contains(y) by {
        if t.contains(y) {
            let k = choose|k: int| 0 <= k < t.len() && t[k] == y;
            let k0 = if k < i { k } else { k + 1 };
            assert(s[k0] == y);
        }
        if s.contains(y) && y != s[i] {
            let k = choose|k: int| 0 <= k < s.len() && s[k] == y;
            let k1 = if k < i { k } else { k - 1 };
            assert(t[k1] == y);
        }
    }
}

impl Store {
    /// Where the user with this identity stands in the users table.
    pub(crate) fn user_position(&self, id: UserId) -> (r: Option<usize>)
        ensures
            match r {
                Some(i) => self@.user_at(i as int, id),
                None => !self@.has_user(id),
            },
    {
        let mut i: usize = 0;
        while i < self.users.len()
            invariant
                i <= self.users.len(),
                forall|j: int| 0 <= j < i ==> !self@.user_at(j, id),
            decreases self.users.len() - i,
        {
            if self.users[i].id == id {
                return Some(i);
            }
            i += 1;
        }
        None
    }

    /// Where the user with this username stands in the users table.
    pub(crate) fn username_position(&self, username: &str) -> (r: Option<usize>)
        ensures
            match r {
                Some(i) => self@.named_at(i as int, username@),
                None => !self@.has_username(username@),
            },
    {
        let name = username.to_owned();
        let mut i: usize = 0;
        while i < self.users.len()
            invariant
                i <= self.users.len(),
                name@ == username@,
                forall|j: int| 0 <= j < i ==> !self@.named_at(j, username@),
            decreases self.users.len() - i,
        {
            if self.users[i].username == name {
                return Some(i);
            }
            i += 1;
        }
        None
    }

    /// Where the user with this email stands in the users table.
    pub(crate) fn email_position(&self, email: &str) -> (r: Option<usize>)
        ensures
            match r {
                Some(i) => self@.mailed_at(i as int, email@),
                None => !self@.has_email(email@),
            },
    {
        let mail = email.to_owned();
        let mut i: usize = 0;
        while i < self.users.len()
            invariant
                i <= self.users.len(),
                mail@ == email@,
                forall|j: int| 0 <= j < i ==> !self@.mailed_at(j, email@),
            decreases self.users.len() - i,
        {
            if self.users[i].email == mail {
                return Some(i);
            }
            i += 1;
        }
        None
    }

    /// Where the article with this slug stands in the articles table.
    pub(crate) fn article_position(&self, slug: &str) -> (r: Option<usize>)
        ensures
            match r {
                Some(i) => self@.article_at(i as int, slug@),
                None => !self@.has_article(slug@),
            },
    {
        let wanted = slug.to_owned();
        let mut i: usize = 0;
        while i < self.articles.len()
            invariant
                i <= self.articles.len(),
                wanted@ == slug@,
                forall|j: int| 0 <= j < i ==> !self@.article_at(j, slug@),
            decreases self.articles.len() - i,
        {
            if self.articles[i].slug == wanted {
                return Some(i);
            }
            i += 1;
        }
        None
    }

    /// Where the pair stands in the favorites table.
    pub(crate) fn favorite_position(&self, user: UserId, slug: &str) -> (r: Option<usize>)
        ensures
            match r {
                Some(i) => i < self.favorites.len() && self.favorites[i as int]@ == (user, slug@)
                    && self@.is_favorite(user, slug@),
                None => !self@.is_favorite(user, slug@),
            },
    {
        let wanted = slug.to_owned();
        let mut i: usize = 0;
        while i < self.favorites.len()
            invariant
                i <= self.favorites.len(),
                wanted@ == slug@,
                forall|j: int| 0 <= j < i ==> self.favorites[j]@ != (user, slug@),
            decreases self.favorites.len() - i,
        {
            if self.favorites[i].user_id == user && self.favorites[i].slug == wanted {
                assert(self.favorites.deep_view()[i as int] == (user, slug@));
                return Some(i);
            }
            i += 1;
        }
        None
    }

    /// Where the pair stands in the followers table.
    pub(crate) fn follow_position(&self, follower: UserId, followed: UserId) -> (r: Option<usize>)
        ensures
            match r {
                Some(i) => i < self.followers.len() && self.followers[i as int]@ == (
                    follower,
                    followed,
                ) && self@.is_following(follower, followed),
                None => !self@.is_following(follower, followed),
            },
    {
        let mut i: usize = 0;
        while i < self.followers.len()
            invariant
                i <= self.followers.len(),
                forall|j: int| 0 <= j < i ==> self.followers[j]@ != (follower, followed),
            decreases self.followers.len() - i,
        {
            if self.followers[i].follower_id == follower && self.followers[i].followed_id
                == followed {
                assert(self.followers.deep_view()[i as int] == (follower, followed));
                return Some(i);
            }
            i += 1;
        }
        None
    }
}

} // verus!
