//! Renders a match set as one human-readable text block.
use vstd::prelude::*;
use crate::catalog::{Book, BookView, books_view};
use crate::text::{decimal, decimal_text};

verus! {

/// Opens the first line of every response, before the keyword.
pub const KEYWORD_OPEN: &'static str = "キーワード '";

/// Closes the single line of a response without matches.
pub const NOT_FOUND_CLOSE: &'static str = "' に一致する本が見つかりませんでした。";

/// Closes the header line of a response with matches.
pub const RESULTS_CLOSE: &'static str = "' の検索結果:\n\n";

pub const TITLE_LABEL: &'static str = "タイトル: ";

pub const AUTHOR_LABEL: &'static str = "\n著者: ";

pub const YEAR_LABEL: &'static str = "\n出版年: ";

pub const ISBN_LABEL: &'static str = "\nISBN: ";

pub const DESCRIPTION_LABEL: &'static str = "\n説明: ";

/// Ends each record's block, leaving a blank line after it.
pub const BLOCK_END: &'static str = "\n\n";

/// The block that shows one record.
pub open spec fn book_block(b: BookView) -> Seq<char> {
    TITLE_LABEL@ + b.title + AUTHOR_LABEL@ + b.author + YEAR_LABEL@ + decimal(b.year as int)
        + ISBN_LABEL@ + b.isbn + DESCRIPTION_LABEL@ + b.description + BLOCK_END@
}

/// The blocks of all records, in order.
pub open spec fn blocks(bs: Seq<BookView>) -> Seq<char>
    decreases bs.len(),
{
    if bs.len() == 0 {
        Seq::empty()
    } else {
        blocks(bs.drop_last()) + book_block(bs.last())
    }
}

/// The response text for a keyword and its match set: a single "no results"
/// line when the set is empty, else a header line and one block per record.
pub open spec fn rendering(keyword: Seq<char>, matches: Seq<BookView>) -> Seq<char> {
    if matches.len() == 0 {
        KEYWORD_OPEN@ + keyword + NOT_FOUND_CLOSE@
    } else {
        KEYWORD_OPEN@ + keyword + RESULTS_CLOSE@ + blocks(matches)
    }
}

/// Appends the block of one record.
pub fn append_block(out: &mut String, book: &Book)
    ensures
        final(out)@ == old(out)@ + book_block(book@),
{
    let ghost start = out@;
    out.append(TITLE_LABEL);
    out.append(book.title.as_str());
    out.append(AUTHOR_LABEL);
    out.append(book.author.as_str());
    out.append(YEAR_LABEL);
    let year = decimal_text(book.year);
    out.append(year.as_str());
    out.append(ISBN_LABEL);
    out.append(book.isbn.as_str());
    out.append(DESCRIPTION_LABEL);
    out.append(book.description.as_str());
    out.append(BLOCK_END);
    assert(out@ =~= start + book_block(book@));
}

/// Renders the response text for `keyword` and its match set.
pub fn render(keyword: &str, matches: &Vec<Book>) -> (r: String)
    ensures
        r@ == rendering(keyword@, books_view(matches@)),
{
    let ghost ms = books_view(matches@);
    let mut out = String::from_str(KEYWORD_OPEN);
    out.append(keyword);
    if matches.len() == 0 {
        out.append(NOT_FOUND_CLOSE);
        return out;
    }
    out.append(RESULTS_CLOSE);
    let ghost header = out@;
    let mut i: usize = 0;
    while i < matches.len()
        invariant
            i <= matches@.len(),
            ms == books_view(matches@),
            out@ == header + blocks(ms.take(i as int)),
        decreases matches@.len() - i,
    {
        let ghost before = out@;
        append_block(&mut out, &matches[i]);
        assert(ms.take(i + 1).drop_last() =~= ms.take(i as int));
        assert(out@ =~= header + blocks(ms.take(i + 1)));
        i += 1;
    }
    assert(ms.take(i as int) =~= ms);
    out
}

/// A response without matches and one with matches differ in shape, whatever
/// their keywords: the first is one line that ends with its closing sentence,
/// the second ends with the blank line after its last record's block.
pub proof fn lemma_empty_and_found_differ(
    keyword: Seq<char>,
    other_keyword: Seq<char>,
    matches: Seq<BookView>,
)
    requires
        matches.len() > 0,
    ensures
        rendering(keyword, Seq::empty()).last() == '。',
        rendering(other_keyword, matches).len() >= 2,
        rendering(other_keyword, matches).last() == '\n',
        rendering(other_keyword, matches)[rendering(other_keyword, matches).len() - 2] == '\n',
        rendering(keyword, Seq::empty()) != rendering(other_keyword, matches),
{
    reveal_strlit("' に一致する本が見つかりませんでした。");
    reveal_strlit("\n\n");
    let found = rendering(other_keyword, matches);
    let tail = book_block(matches.last());
    assert(found == KEYWORD_OPEN@ + other_keyword + RESULTS_CLOSE@ + blocks(matches.drop_last())
        + tail);
    assert(tail.last() == '\n');
    assert(tail[tail.len() - 2] == '\n');
    assert(found.last() == '\n');
}

} // verus!
