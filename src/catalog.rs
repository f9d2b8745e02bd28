//! The fixed catalog of fictional book records.
use vstd::prelude::*;

verus! {

/// One record of the catalog.
#[derive(Debug, Clone)]
pub struct Book {
    pub title: String,
    pub author: String,
    pub year: i32,
    pub description: String,
    pub isbn: String,
}

/// The mathematical value of a [`Book`]: its text fields as character sequences.
pub struct BookView {
    pub title: Seq<char>,
    pub author: Seq<char>,
    pub year: i32,
    pub description: Seq<char>,
    pub isbn: Seq<char>,
}

impl View for Book {
    type V = BookView;

    open spec fn view(&self) -> BookView {
        BookView {
            title: self.title@,
            author: self.author@,
            year: self.year,
            description: self.description@,
            isbn: self.isbn@,
        }
    }
}

/// The values of a sequence of books, in the same order.
pub open spec fn books_view(books: Seq<Book>) -> Seq<BookView> {
    books.map_values(|b: Book| b@)
}

/// The record whose fields are the given values.
pub open spec fn record(
    title: &str,
    author: &str,
    year: i32,
    description: &str,
    isbn: &str,
) -> BookView {
    BookView { title: title@, author: author@, year, description: description@, isbn: isbn@ }
}

impl Book {
    /// Builds a record from its field values.
    pub fn new(title: &str, author: &str, year: i32, description: &str, isbn: &str) -> (r: Book)
        ensures
            r@ == record(title, author, year, description, isbn),
    {
        Book {
            title: String::from_str(title),
            author: String::from_str(author),
            year,
            description: String::from_str(description),
            isbn: String::from_str(isbn),
        }
    }

    /// An independent copy of this record, with the same value.
    pub fn duplicate(&self) -> (r: Book)
        ensures
            r@ == self@,
    {
        Book {
            title: self.title.clone(),
            author: self.author.clone(),
            year: self.year,
            description: self.description.clone(),
            isbn: self.isbn.clone(),
        }
    }
}

/// The catalog's records, in their fixed order.
pub open spec fn catalog_view() -> Seq<BookView> {
    seq![
        record(
            "量子コンピュータで料理する方法",
            "Dr. スーパーサイエンティスト",
            2157,
            "量子コンピュータを使用して、分子レベルで料理を再構築する革新的な方法を解説",
            "978-0-123456-47-11",
        ),
        record(
            "タイムトラベルと税金対策",
            "未来の会計士",
            3000,
            "タイムトラベルを活用した効率的な税金対策を解説",
            "978-0-123456-47-12",
        ),
        record(
            "火星での園芸入門",
            "火星の園芸家",
            2250,
            "火星の特殊な環境で植物を育てる方法を解説。",
            "978-0-123456-47-13",
        ),
        record(
            "AIと恋愛の心理学",
            "ロボット心理学者",
            2200,
            "AIとの恋愛関係における心理学的な考察と実践的なアドバイス。",
            "978-0-123456-47-14",
        ),
        record(
            "テレパシーでプログラミング",
            "サイキックエンジニア",
            2300,
            "テレパシー能力を使用してコードを書く方法を解説。",
            "978-0-123456-47-15",
        ),
    ]
}

/// Builds the catalog. Every call gives the same records in the same order.
pub fn catalog() -> (r: Vec<Book>)
    ensures
        books_view(r@) == catalog_view(),
{
    let mut books: Vec<Book> = Vec::new();
    books.push(
        Book::new(
            "量子コンピュータで料理する方法",
            "Dr. スーパーサイエンティスト",
            2157,
            "量子コンピュータを使用して、分子レベルで料理を再構築する革新的な方法を解説",
            "978-0-123456-47-11",
        ),
    );
    books.push(
        Book::new(
            "タイムトラベルと税金対策",
            "未来の会計士",
            3000,
            "タイムトラベルを活用した効率的な税金対策を解説",
            "978-0-123456-47-12",
        ),
    );
    books.push(
        Book::new(
            "火星での園芸入門",
            "火星の園芸家",
            2250,
            "火星の特殊な環境で植物を育てる方法を解説。",
            "978-0-123456-47-13",
        ),
    );
    books.push(
        Book::new(
            "AIと恋愛の心理学",
            "ロボット心理学者",
            2200,
            "AIとの恋愛関係における心理学的な考察と実践的なアドバイス。",
            "978-0-123456-47-14",
        ),
    );
    books.push(
        Book::new(
            "テレパシーでプログラミング",
            "サイキックエンジニア",
            2300,
            "テレパシー能力を使用してコードを書く方法を解説。",
            "978-0-123456-47-15",
        ),
    );
    assert(books_view(books@) =~= catalog_view());
    books
}

} // verus!
