//! Case-insensitive keyword matching over the catalog.
use vstd::prelude::*;
use crate::catalog::{Book, BookView, books_view};
use crate::text::{contains_text, is_substring, lower_of, lowercase};

verus! {

/// Number of results when a query gives no limit.
pub const DEFAULT_LIMIT: i32 = 5;

/// A record matches when the folded keyword stands in its folded title,
/// author or description.
pub open spec fn record_matches(b: BookView, folded_keyword: Seq<char>) -> bool {
    is_substring(folded_keyword, lower_of(b.title)) || is_substring(
        folded_keyword,
        lower_of(b.author),
    ) || is_substring(folded_keyword, lower_of(b.description))
}

/// The most results a query asks for: the default when absent, none when
/// zero or negative.
pub open spec fn effective_limit(limit: Option<i32>) -> nat {
    match limit {
        None => DEFAULT_LIMIT as nat,
        Some(l) => if l <= 0 {
            0
        } else {
            l as nat
        },
    }
}

/// The first `n` elements of `s`, or all of them when it has fewer.
pub open spec fn first_n<A>(s: Seq<A>, n: nat) -> Seq<A> {
    if n < s.len() {
        s.take(n as int)
    } else {
        s
    }
}

/// The records that match, in catalog order.
pub open spec fn matching(books: Seq<BookView>, folded_keyword: Seq<char>) -> Seq<BookView> {
    books.filter(|b: BookView| record_matches(b, folded_keyword))
}

/// The match set of a query: the matching records in catalog order, cut to the limit.
pub open spec fn match_set(books: Seq<BookView>, keyword: Seq<char>, limit: Option<i32>) -> Seq<
    BookView,
> {
    first_n(matching(books, lower_of(keyword)), effective_limit(limit))
}

/// Decides a match from text that is already case folded.
pub fn matches_folded(folded_keyword: &str, title: &str, author: &str, description: &str) -> (r:
    bool)
    ensures
        r == (is_substring(folded_keyword@, title@) || is_substring(folded_keyword@, author@)
            || is_substring(folded_keyword@, description@)),
{
    contains_text(title, folded_keyword) || contains_text(author, folded_keyword) || contains_text(
        description,
        folded_keyword,
    )
}

/// Whether `book` matches a keyword that is already case folded.
pub fn book_matches(book: &Book, folded_keyword: &str) -> (r: bool)
    ensures
        r == record_matches(book@, folded_keyword@),
{
    let title = lowercase(book.title.as_str());
    let author = lowercase(book.author.as_str());
    let description = lowercase(book.description.as_str());
    matches_folded(folded_keyword, title.as_str(), author.as_str(), description.as_str())
}

/// The limit a query asks for, as a count.
pub fn limit_count(limit: Option<i32>) -> (r: usize)
    ensures
        r as nat == effective_limit(limit),
{
    match limit {
        None => DEFAULT_LIMIT as usize,
        Some(l) => if l <= 0 {
            0
        } else {
            l as usize
        },
    }
}

/// The records of `books` that match `keyword`, ignoring case, in their
/// order, at most as many as `limit` asks for.
pub fn find_books(books: &Vec<Book>, keyword: &str, limit: Option<i32>) -> (r: Vec<Book>)
    ensures
        books_view(r@) == match_set(books_view(books@), keyword@, limit),
{
    let folded = lowercase(keyword);
    let n = limit_count(limit);
    let ghost all = books_view(books@);
    let ghost k = lower_of(keyword@);
    let mut found: Vec<Book> = Vec::new();
    let mut i: usize = 0;
    while i < books.len()
        invariant
            i <= books@.len(),
            all == books_view(books@),
            k == folded@,
            n as nat == effective_limit(limit),
            books_view(found@) == first_n(matching(all.take(i as int), k), n as nat),
        decreases books@.len() - i,
    {
        let ghost before = matching(all.take(i as int), k);
        proof {
            reveal(Seq::filter);
            assert(all.take(i + 1).drop_last() =~= all.take(i as int));
        }
        if book_matches(&books[i], folded.as_str()) {
            assert(matching(all.take(i + 1), k) == before.push(all[i as int]));
            if found.len() < n {
                let ghost prev = found@;
                assert(books_view(prev) == before);
                found.push(books[i].duplicate());
                assert(found@ =~= prev.push(found@.last()));
                assert(books_view(found@) =~= before.push(all[i as int]));
            } else {
                assert(first_n(before.push(all[i as int]), n as nat) =~= first_n(before, n as nat));
            }
        } else {
            assert(matching(all.take(i + 1), k) == before);
        }
        i += 1;
    }
    assert(all.take(i as int) =~= all);
    found
}

} // verus!

verus! {

/// `pos` lists, for each element of `sub`, a position of `s` that holds it,
/// the positions strictly increasing.
pub open spec fn picks<A>(pos: Seq<int>, sub: Seq<A>, s: Seq<A>) -> bool {
    &&& pos.len() == sub.len()
    &&& forall|i: int| 0 <= i < pos.len() ==> 0 <= #[trigger] pos[i] < s.len() && s[pos[i]] == sub[i]
    &&& forall|i: int, j: int| 0 <= i < j < pos.len() ==> pos[i] < pos[j]
}

/// `sub` is made of elements of `s`, taken in the order in which `s` holds them.
pub open spec fn ordered_subsequence<A>(sub: Seq<A>, s: Seq<A>) -> bool {
    exists|pos: Seq<int>| picks(pos, sub, s)
}

proof fn lemma_filter_picks<A>(s: Seq<A>, p: spec_fn(A) -> bool) -> (pos: Seq<int>)
    ensures
        picks(pos, s.filter(p), s),
    decreases s.len(),
{
    reveal(Seq::filter);
    if s.len() == 0 {
        Seq::empty()
    } else {
        let rest = s.drop_last();
        let pos0 = lemma_filter_picks(rest, p);
        if p(s.last()) {
            let pos = pos0.push(s.len() - 1);
            assert(s.filter(p) == rest.filter(p).push(s.last()));
            assert forall|i: int| 0 <= i < pos.len() implies 0 <= #[trigger] pos[i] < s.len()
                && s[pos[i]] == s.filter(p)[i] by {
                if i < pos0.len() {
                    assert(rest[pos0[i]] == s[pos0[i]]);
                }
            }
            pos
        } else {
            assert forall|i: int| 0 <= i < pos0.len() implies 0 <= #[trigger] pos0[i] < s.len()
                && s[pos0[i]] == s.filter(p)[i] by {
                assert(rest[pos0[i]] == s[pos0[i]]);
            }
            pos0
        }
    }
}

/// Every record of a match set matches the query: the case-folded keyword
/// stands in its case-folded title, author or description.
pub proof fn lemma_match_set_records_match(books: Seq<BookView>, keyword: Seq<char>, limit: Option<i32>)
    ensures
        forall|i: int|
            0 <= i < match_set(books, keyword, limit).len() ==> record_matches(
                #[trigger] match_set(books, keyword, limit)[i],
                lower_of(keyword),
            ),
{
    let k = lower_of(keyword);
    let p = |b: BookView| record_matches(b, k);
    let r = match_set(books, keyword, limit);
    assert forall|i: int| 0 <= i < r.len() implies record_matches(#[trigger] r[i], k) by {
        books.lemma_filter_pred(p, i);
    }
}

/// A match set holds no more records than the limit asks for (the default
/// when it is absent), nor more than the catalog holds.
pub proof fn lemma_match_set_len(books: Seq<BookView>, keyword: Seq<char>, limit: Option<i32>)
    ensures
        match_set(books, keyword, limit).len() <= effective_limit(limit),
        match_set(books, keyword, limit).len() <= books.len(),
        limit is None ==> match_set(books, keyword, limit).len() <= DEFAULT_LIMIT,
{
    let k = lower_of(keyword);
    books.lemma_filter_len(|b: BookView| record_matches(b, k));
}

/// A match set keeps the catalog's order: its records stand in the catalog
/// in the same relative order.
pub proof fn lemma_match_set_keeps_order(books: Seq<BookView>, keyword: Seq<char>, limit: Option<i32>)
    ensures
        ordered_subsequence(match_set(books, keyword, limit), books),
{
    let k = lower_of(keyword);
    let pos = lemma_filter_picks(books, |b: BookView| record_matches(b, k));
    let r = match_set(books, keyword, limit);
    let pr = pos.take(r.len() as int);
    assert(picks(pr, r, books));
}

} // verus!
