//! Text helpers: character access, the lexicographic order on strings and
//! the derivation of URL-safe slugs.

use vstd::prelude::*;

verus! {

/// `String::push` appends the given character to the end of the string.
pub assume_specification[ String::push ](s: &mut String, c: char)
    ensures
        final(s)@ == old(s)@.push(c),
;

/// The characters of `s`, in order.
pub fn chars_of(s: &str) -> (r: Vec<char>)
    ensures
        r@ == s@,
{
    let mut r: Vec<char> = Vec::new();
    for c in it: s.chars()
        invariant
            it.seq() == s@,
            r@ == s@.take(it.index()),
    {
        r.push(c);
    }
    r
}

/// `a` and `b` agree on their first `k` characters.
pub open spec fn common_prefix(a: Seq<char>, b: Seq<char>, k: int) -> bool {
    &&& 0 <= k <= a.len()
    &&& k <= b.len()
    &&& forall|j: int| 0 <= j < k ==> a[j] == b[j]
}

/// `a` and `b` part ways at position `k` in favour of `a`: either `a` ends
/// there and `b` goes on, or `a` holds the smaller character.
pub open spec fn splits_at(a: Seq<char>, b: Seq<char>, k: int) -> bool {
    &&& common_prefix(a, b, k)
    &&& k < b.len()
    &&& k < a.len() ==> a[k] < b[k]
}

/// Strict lexicographic order by code point.
pub open spec fn text_lt(a: Seq<char>, b: Seq<char>) -> bool {
    exists|k: int| splits_at(a, b, k)
}

/// No string comes before itself.
pub proof fn lemma_text_lt_irreflexive(a: Seq<char>)
    ensures
        !text_lt(a, a),
{
}

/// What comes before a string comes before everything after it.
pub proof fn lemma_text_lt_transitive(a: Seq<char>, b: Seq<char>, c: Seq<char>)
    requires
        text_lt(a, b),
        text_lt(b, c),
    ensures
        text_lt(a, c),
{
    let k1 = choose|k: int| splits_at(a, b, k);
    let k2 = choose|k: int| splits_at(b, c, k);
    let k = if k1 <= k2 { k1 } else { k2 };
    assert(splits_at(a, c, k));
}

/// Up to position `n`, two strings either agree or have a first position
/// where they differ.
proof fn lemma_first_difference(a: Seq<char>, b: Seq<char>, n: int) -> (k: int)
    requires
        0 <= n <= a.len(),
        n <= b.len(),
    ensures
        common_prefix(a, b, k),
        k <= n,
        k < n ==> a[k] != b[k],
    decreases n,
{
    if n == 0 {
        0
    } else {
        let k = lemma_first_difference(a, b, n - 1);
        if k < n - 1 {
            k
        } else if a[n - 1] == b[n - 1] {
            n
        } else {
            n - 1
        }
    }
}

/// Of two different strings one comes before the other.
pub proof fn lemma_text_lt_total(a: Seq<char>, b: Seq<char>)
    ensures
        a == b || text_lt(a, b) || text_lt(b, a),
{
    let n = if a.len() <= b.len() { a.len() as int } else { b.len() as int };
    let k = lemma_first_difference(a, b, n);
    if k < n {
        if a[k] < b[k] {
            assert(splits_at(a, b, k));
        } else {
            assert(splits_at(b, a, k));
        }
    } else if a.len() < b.len() {
        assert(splits_at(a, b, k));
    } else if b.len() < a.len() {
        assert(splits_at(b, a, k));
    } else {
        assert(a =~= b);
    }
}

/// Decides the lexicographic order of two strings.
pub fn str_lt(a: &str, b: &str) -> (r: bool)
    ensures
        r == text_lt(a@, b@),
{
    let x = chars_of(a);
    let y = chars_of(b);
    let mut i: usize = 0;
    while i < x.len() && i < y.len() && x[i] == y[i]
        invariant
            x@ == a@,
            y@ == b@,
            common_prefix(a@, b@, i as int),
        decreases x.len() - i,
    {
        i += 1;
    }
    let r = i < y.len() && (i == x.len() || x[i] < y[i]);
    proof {
        if r {
            assert(splits_at(a@, b@, i as int));
        } else {
            assert forall|k: int| !splits_at(a@, b@, k) by {
                if splits_at(a@, b@, k) {
                    if k < i {
                    } else if k > i {
                        assert(a@[i as int] == b@[i as int]);
                    }
                }
            }
        }
    }
    r
}

/// An ASCII letter or digit: the characters a slug keeps.
pub open spec fn is_word_char(c: char) -> bool {
    ||| 'a' <= c <= 'z'
    ||| 'A' <= c <= 'Z'
    ||| '0' <= c <= '9'
}

/// The lower-case form of an ASCII letter; any other character unchanged.
pub open spec fn lower(c: char) -> char {
    if 'A' <= c <= 'Z' {
        ((c as u8) + 32) as char
    } else {
        c
    }
}

/// The slug of a title: its words (the maximal runs of ASCII letters and
/// digits) in lower case, joined by single hyphens.
pub open spec fn slug_of(title: Seq<char>) -> Seq<char>
    decreases title.len(),
{
    if title.len() == 0 {
        Seq::empty()
    } else {
        let head = slug_of(title.drop_last());
        let c = title.last();
        if !is_word_char(c) {
            head
        } else if head.len() > 0 && !is_word_char(title[title.len() - 2]) {
            head.push('-').push(lower(c))
        } else {
            head.push(lower(c))
        }
    }
}

/// The shape of a slug: lower-case ASCII letters, digits and hyphens, with
/// no hyphen at either end and no two hyphens in a row.
pub open spec fn is_slug(s: Seq<char>) -> bool {
    &&& forall|i: int|
        0 <= i < s.len() ==> ('a' <= #[trigger] s[i] <= 'z' || '0' <= s[i] <= '9' || s[i] == '-')
    &&& s.len() > 0 ==> s[0] != '-' && s[s.len() - 1] != '-'
    &&& forall|i: int| 0 <= i < s.len() - 1 ==> !(#[trigger] s[i] == '-' && s[i + 1] == '-')
}

/// Whatever the title, its slug has the shape of a slug.
pub proof fn lemma_slug_of_is_slug(title: Seq<char>)
    ensures
        is_slug(slug_of(title)),
    decreases title.len(),
{
    if title.len() > 0 {
        lemma_slug_of_is_slug(title.drop_last());
        let head = slug_of(title.drop_last());
        let c = title.last();
        if is_word_char(c) {
            let l = lower(c);
            assert('a' <= l <= 'z' || '0' <= l <= '9');
            let out = slug_of(title);
            if head.len() > 0 && !is_word_char(title[title.len() - 2]) {
                assert(out =~= head.push('-').push(l));
                assert forall|i: int| 0 <= i < out.len() - 1 implies !(#[trigger] out[i] == '-'
                    && out[i + 1] == '-') by {
                    if i < head.len() - 1 {
                        assert(out[i] == head[i] && out[i + 1] == head[i + 1]);
                    } else if i == head.len() - 1 {
                        assert(out[i] == head[head.len() - 1]);
                    }
                }
            } else {
                assert(out =~= head.push(l));
                assert forall|i: int| 0 <= i < out.len() - 1 implies !(#[trigger] out[i] == '-'
                    && out[i + 1] == '-') by {
                    if i < head.len() - 1 {
                        assert(out[i] == head[i] && out[i + 1] == head[i + 1]);
                    }
                }
            }
        }
    }
}

fn word_char(c: char) -> (r: bool)
    ensures
        r == is_word_char(c),
{
    ('a' <= c && c <= 'z') || ('A' <= c && c <= 'Z') || ('0' <= c && c <= '9')
}

fn to_lower(c: char) -> (r: char)
    ensures
        r == lower(c),
{
    if 'A' <= c && c <= 'Z' {
        ((c as u8) + 32) as char
    } else {
        c
    }
}

/// Derives the slug of `title`.
pub fn slugify(title: &str) -> (r: String)
    ensures
        r@ == slug_of(title@),
        is_slug(r@),
{
    let mut out = String::new();
    let mut empty: bool = true;
    let mut gap: bool = false;
    for c in it: title.chars()
        invariant
            it.seq() == title@,
            out@ == slug_of(title@.take(it.index())),
            empty == (out@.len() == 0),
            gap == (it.index() > 0 && !is_word_char(title@[it.index() - 1])),
    {
        proof {
            assert(title@.take(it.index() + 1).drop_last() =~= title@.take(it.index()));
        }
        if word_char(c) {
            if gap && !empty {
                out.push('-');
            }
            out.push(to_lower(c));
            empty = false;
            gap = false;
        } else {
            gap = true;
        }
    }
    proof {
        assert(title@.take(title@.len() as int) =~= title@);
        lemma_slug_of_is_slug(title@);
    }
    out
}

} // verus!
