use book_search::catalog::{catalog, Book};
use book_search::matcher::{book_matches, find_books, limit_count, matches_folded};
use book_search::render::render;
use book_search::server::{decode_query, BookSearch, Param, SearchQuery, ToolError};
use book_search::text::{contains_text, decimal_text};

const QUANTUM_BLOCK: &str = "タイトル: 量子コンピュータで料理する方法\n著者: Dr. スーパーサイエンティスト\n出版年: 2157\nISBN: 978-0-123456-47-11\n説明: 量子コンピュータを使用して、分子レベルで料理を再構築する革新的な方法を解説\n\n";

fn query(keyword: &str, limit: Option<i32>) -> SearchQuery {
    SearchQuery { keyword: keyword.to_string(), limit }
}

fn titles(books: &[Book]) -> Vec<String> {
    books.iter().map(|b| b.title.clone()).collect()
}

#[test]
fn catalog_has_five_records_in_fixed_order() {
    let books = catalog();
    assert_eq!(books.len(), 5);
    assert_eq!(books[0].title, "量子コンピュータで料理する方法");
    assert_eq!(books[0].year, 2157);
    assert_eq!(books[1].isbn, "978-0-123456-47-12");
    assert_eq!(books[4].author, "サイキックエンジニア");
    assert_eq!(titles(&catalog()), titles(&books));
}

#[test]
fn quantum_keyword_finds_one_book() {
    let out = BookSearch::new().search(&query("量子", None));
    assert_eq!(out, format!("キーワード '量子' の検索結果:\n\n{}", QUANTUM_BLOCK));
}

#[test]
fn unknown_keyword_renders_no_results() {
    let out = BookSearch::new().search(&query("xyz-nonexistent", None));
    assert_eq!(out, "キーワード 'xyz-nonexistent' に一致する本が見つかりませんでした。");
    assert!(!out.contains("タイトル: "));
}

#[test]
fn empty_keyword_with_limit_two_takes_first_two() {
    let found = find_books(&catalog(), "", Some(2));
    assert_eq!(
        titles(&found),
        vec!["量子コンピュータで料理する方法".to_string(), "タイムトラベルと税金対策".to_string()]
    );
}

#[test]
fn empty_keyword_default_limit_takes_all_five() {
    let found = find_books(&catalog(), "", None);
    assert_eq!(titles(&found), titles(&catalog()));
}

#[test]
fn keyword_case_does_not_matter() {
    let upper = find_books(&catalog(), "DR.", None);
    let lower = find_books(&catalog(), "dr.", None);
    assert_eq!(titles(&upper), vec!["量子コンピュータで料理する方法".to_string()]);
    assert_eq!(titles(&upper), titles(&lower));
    let s = BookSearch::new();
    assert_eq!(
        s.search(&query("DR.", None)),
        format!("キーワード 'DR.' の検索結果:\n\n{}", QUANTUM_BLOCK)
    );
    assert_eq!(
        s.search(&query("dr.", None)),
        format!("キーワード 'dr.' の検索結果:\n\n{}", QUANTUM_BLOCK)
    );
}

#[test]
fn keyword_not_in_any_field_finds_nothing() {
    assert!(find_books(&catalog(), "博士", None).is_empty());
}

#[test]
fn ascii_keyword_matches_mixed_case_title() {
    let found = find_books(&catalog(), "ai", None);
    assert_eq!(titles(&found), vec!["AIと恋愛の心理学".to_string()]);
}

#[test]
fn missing_keyword_is_invalid_params() {
    let s = BookSearch::new();
    match s.invoke(Param::Missing, Param::Missing) {
        Err(ToolError::InvalidParams { message }) => {
            assert_eq!(message, "missing field `keyword`")
        }
        other => panic!("unexpected {:?}", other),
    }
    assert_eq!(catalog().len(), 5);
    assert_eq!(
        s.search(&query("量子", None)),
        format!("キーワード '量子' の検索結果:\n\n{}", QUANTUM_BLOCK)
    );
}

#[test]
fn keyword_of_wrong_type_is_invalid_params() {
    match decode_query(Param::Integer(3), Param::Missing) {
        Err(ToolError::InvalidParams { message }) => {
            assert_eq!(message, "invalid type for field `keyword`: expected a string")
        }
        other => panic!("unexpected {:?}", other),
    }
}

#[test]
fn limit_out_of_range_or_wrong_type_is_invalid_params() {
    for limit in [Param::Integer(1 << 40), Param::Text("3".to_string()), Param::Other] {
        match decode_query(Param::Text("a".to_string()), limit) {
            Err(ToolError::InvalidParams { message }) => assert_eq!(
                message,
                "invalid value for field `limit`: expected a 32-bit integer or null"
            ),
            other => panic!("unexpected {:?}", other),
        }
    }
}

#[test]
fn decode_accepts_missing_and_null_limit() {
    let q = decode_query(Param::Text("火星".to_string()), Param::Null).unwrap();
    assert_eq!(q.keyword, "火星");
    assert_eq!(q.limit, None);
    let q = decode_query(Param::Text("".to_string()), Param::Integer(-3)).unwrap();
    assert_eq!(q.limit, Some(-3));
}

#[test]
fn invoke_renders_like_search() {
    let s = BookSearch::new();
    let out = s.invoke(Param::Text("量子".to_string()), Param::Integer(1)).unwrap();
    assert_eq!(out, s.search(&query("量子", Some(1))));
}

#[test]
fn read_resource_is_not_found_with_uri() {
    for uri in ["file:///books/1", "", "量子://x"] {
        match BookSearch::new().read_resource(uri) {
            ToolError::ResourceNotFound { message, uri: u } => {
                assert_eq!(message, "resource_not_found");
                assert_eq!(u, uri);
            }
            other => panic!("unexpected {:?}", other),
        }
    }
}

#[test]
fn get_prompt_is_invalid_params() {
    match BookSearch::new().get_prompt("anything") {
        ToolError::InvalidParams { message } => assert_eq!(message, "prompt not found"),
        other => panic!("unexpected {:?}", other),
    }
}

#[test]
fn listings_are_empty_without_cursor() {
    let s = BookSearch::new();
    let r = s.list_resources::<String>();
    assert!(r.items.is_empty() && r.next_cursor.is_none());
    let t = s.list_resource_templates::<u8>();
    assert!(t.items.is_empty() && t.next_cursor.is_none());
    let p = s.list_prompts::<String>();
    assert!(p.items.is_empty() && p.next_cursor.is_none());
}

#[test]
fn info_reports_capabilities_and_instructions() {
    let info = BookSearch::new().info();
    assert_eq!(info.protocol_version, "2024-11-05");
    assert!(info.capabilities.prompts && info.capabilities.resources && info.capabilities.tools);
    assert_eq!(
        info.instructions,
        "架空の本のデータベースを検索するサーバーです。タイトル、著者、説明文で検索できます。"
    );
}

#[test]
fn every_result_matches_keyword() {
    for kw in ["解説", "火星", "の", "TAX", "a"] {
        let folded = kw.to_lowercase();
        for b in find_books(&catalog(), kw, Some(10)) {
            assert!(
                b.title.to_lowercase().contains(&folded)
                    || b.author.to_lowercase().contains(&folded)
                    || b.description.to_lowercase().contains(&folded)
            );
        }
    }
}

#[test]
fn result_length_bounded_by_limit_and_catalog() {
    let books = catalog();
    assert_eq!(find_books(&books, "解説", None).len(), 4);
    assert_eq!(find_books(&books, "解説", Some(3)).len(), 3);
    assert_eq!(find_books(&books, "", Some(100)).len(), 5);
    assert_eq!(find_books(&books, "", Some(0)).len(), 0);
    assert_eq!(find_books(&books, "", Some(-1)).len(), 0);
    assert_eq!(find_books(&books, "", Some(i32::MIN)).len(), 0);
    assert_eq!(find_books(&books, "", Some(i32::MAX)).len(), 5);
}

#[test]
fn results_keep_catalog_order() {
    let found = find_books(&catalog(), "解説", None);
    assert_eq!(
        titles(&found),
        vec![
            "量子コンピュータで料理する方法".to_string(),
            "タイムトラベルと税金対策".to_string(),
            "火星での園芸入門".to_string(),
            "テレパシーでプログラミング".to_string(),
        ]
    );
}

#[test]
fn search_twice_gives_same_text() {
    let s = BookSearch::new();
    assert_eq!(s.search(&query("の", Some(3))), s.search(&query("の", Some(3))));
}

#[test]
fn empty_and_found_renderings_differ_in_shape() {
    let empty = render("x", &Vec::new());
    let found = render("x", &find_books(&catalog(), "", Some(1)));
    assert!(empty.ends_with('。') && !empty.contains('\n'));
    assert!(found.ends_with("\n\n"));
    assert_ne!(empty, found);
}

#[test]
fn render_joins_blocks_in_order() {
    let two = find_books(&catalog(), "", Some(2));
    let out = render("", &two);
    let second = "タイトル: タイムトラベルと税金対策\n著者: 未来の会計士\n出版年: 3000\nISBN: 978-0-123456-47-12\n説明: タイムトラベルを活用した効率的な税金対策を解説\n\n";
    assert_eq!(out, format!("キーワード '' の検索結果:\n\n{}{}", QUANTUM_BLOCK, second));
}

#[test]
fn substring_search_on_characters() {
    assert!(contains_text("abc", ""));
    assert!(contains_text("", ""));
    assert!(!contains_text("", "a"));
    assert!(contains_text("火星での園芸", "での"));
    assert!(contains_text("abcabd", "abd"));
    assert!(!contains_text("abcab", "abd"));
    assert!(!contains_text("ab", "abc"));
}

#[test]
fn decimal_rendering() {
    assert_eq!(decimal_text(0), "0");
    assert_eq!(decimal_text(7), "7");
    assert_eq!(decimal_text(2157), "2157");
    assert_eq!(decimal_text(-45), "-45");
    assert_eq!(decimal_text(i32::MAX), "2147483647");
    assert_eq!(decimal_text(i32::MIN), "-2147483648");
}

#[test]
fn folded_matching_checks_each_field() {
    assert!(matches_folded("dr.", "x", "dr. a", "y"));
    assert!(matches_folded("y", "x", "z", "xyz"));
    assert!(!matches_folded("DR.", "x", "dr. a", "y"));
}

#[test]
fn book_matching_folds_fields() {
    let b = Book::new("T", "Dr. Who", 1, "D", "I");
    assert!(book_matches(&b, "dr. who"));
    assert!(!book_matches(&b, "DR. WHO"));
    assert_eq!(b.duplicate().author, "Dr. Who");
}

#[test]
fn limit_count_defaults_and_clamps() {
    assert_eq!(limit_count(None), 5);
    assert_eq!(limit_count(Some(0)), 0);
    assert_eq!(limit_count(Some(-7)), 0);
    assert_eq!(limit_count(Some(9)), 9);
}
