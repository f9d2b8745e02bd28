//! The tool façade and the capability handshake: the stateless responder that
//! an orchestrator talks to.
use vstd::prelude::*;
use crate::catalog::{catalog, catalog_view};
use crate::matcher::{find_books, match_set};
use crate::render::{render, rendering};

verus! {

/// A decoded search request.
#[derive(Debug)]
pub struct SearchQuery {
    /// The text to look for; may be empty, which matches every record.
    pub keyword: String,
    /// The most results to return; absent means the default.
    pub limit: Option<i32>,
}

/// One argument of a tool call, as it arrived in the request.
#[derive(Debug)]
pub enum Param {
    /// The argument is not there.
    Missing,
    /// The argument is there, with a null value.
    Null,
    Text(String),
    Integer(i64),
    /// Any other value: a fraction, a boolean, a list or an object.
    Other,
}

/// An error answer, in the protocol's error categories.
#[derive(Debug)]
pub enum ToolError {
    /// The request's parameters are malformed, or name nothing that exists.
    InvalidParams { message: String },
    /// The requested resource does not exist; `uri` names it.
    ResourceNotFound { message: String, uri: String },
}

/// One page of a listing, and the cursor of the next page if there is one.
pub struct Page<T> {
    pub items: Vec<T>,
    pub next_cursor: Option<String>,
}

/// The feature categories that the server offers.
#[derive(Debug, Clone, Copy, PartialEq, Eq, Structural)]
pub struct Capabilities {
    pub prompts: bool,
    pub resources: bool,
    pub tools: bool,
}

/// What the server reports of itself when a session starts.
#[derive(Debug)]
pub struct ServerDescription {
    pub protocol_version: String,
    pub capabilities: Capabilities,
    pub instructions: String,
}

/// The name under which the search tool is advertised.
pub const TOOL_NAME: &'static str = "search";

/// The description under which the search tool is advertised.
pub const TOOL_DESCRIPTION: &'static str = "Search for book in our fictional database";

pub const PROTOCOL_VERSION: &'static str = "2024-11-05";

pub const INSTRUCTIONS: &'static str =
    "架空の本のデータベースを検索するサーバーです。タイトル、著者、説明文で検索できます。";

pub const MISSING_KEYWORD: &'static str = "missing field `keyword`";

pub const INVALID_KEYWORD: &'static str = "invalid type for field `keyword`: expected a string";

pub const INVALID_LIMIT: &'static str =
    "invalid value for field `limit`: expected a 32-bit integer or null";

pub const PROMPT_NOT_FOUND: &'static str = "prompt not found";

pub const RESOURCE_NOT_FOUND: &'static str = "resource_not_found";

/// The response text of a search for `keyword` with `limit`.
pub open spec fn search_response(keyword: Seq<char>, limit: Option<i32>) -> Seq<char> {
    rendering(keyword, match_set(catalog_view(), keyword, limit))
}

/// The limit that a `limit` argument decodes to, or `None` when it is malformed.
pub open spec fn limit_value(limit: Param) -> Option<Option<i32>> {
    match limit {
        Param::Missing => Some(None),
        Param::Null => Some(None),
        Param::Integer(v) => if i32::MIN <= v <= i32::MAX {
            Some(Some(v as i32))
        } else {
            None
        },
        _ => None,
    }
}

/// Why a pair of arguments does not decode to a query, as the error message;
/// `None` when it does.
pub open spec fn decode_failure(keyword: Param, limit: Param) -> Option<Seq<char>> {
    match keyword {
        Param::Missing => Some(MISSING_KEYWORD@),
        Param::Text(_) => if limit_value(limit) is Some {
            None
        } else {
            Some(INVALID_LIMIT@)
        },
        _ => Some(INVALID_KEYWORD@),
    }
}

/// `e` is an invalid-parameters error with message `m`.
pub open spec fn is_invalid_params(e: ToolError, m: Seq<char>) -> bool {
    match e {
        ToolError::InvalidParams { message } => message@ == m,
        _ => false,
    }
}

/// Decodes the arguments of a search call.
pub fn decode_query(keyword: Param, limit: Param) -> (r: Result<SearchQuery, ToolError>)
    ensures
        match decode_failure(keyword, limit) {
            Some(m) => r is Err && is_invalid_params(r->Err_0, m),
            None => r is Ok && r->Ok_0.keyword@ == keyword->Text_0@ && Some(r->Ok_0.limit)
                == limit_value(limit),
        },
{
    let keyword = match keyword {
        Param::Missing => {
            return Err(ToolError::InvalidParams { message: String::from_str(MISSING_KEYWORD) });
        },
        Param::Text(k) => k,
        _ => {
            return Err(ToolError::InvalidParams { message: String::from_str(INVALID_KEYWORD) });
        },
    };
    let limit = match limit {
        Param::Missing => None,
        Param::Null => None,
        Param::Integer(v) if i32::MIN as i64 <= v && v <= i32::MAX as i64 => Some(v as i32),
        _ => {
            return Err(ToolError::InvalidParams { message: String::from_str(INVALID_LIMIT) });
        },
    };
    Ok(SearchQuery { keyword, limit })
}

/// The search tool's server. It holds no state: the catalog is fixed.
#[derive(Debug, Clone)]
pub struct BookSearch;

impl BookSearch {
    pub fn new() -> (r: Self) {
        BookSearch
    }

    /// Searches the catalog and renders the match set as the response text.
    pub fn search(&self, query: &SearchQuery) -> (r: String)
        ensures
            r@ == search_response(query.keyword@, query.limit),
    {
        let books = catalog();
        let found = find_books(&books, query.keyword.as_str(), query.limit);
        render(query.keyword.as_str(), &found)
    }

    /// Answers one call of the search tool from its raw arguments.
    pub fn invoke(&self, keyword: Param, limit: Param) -> (r: Result<String, ToolError>)
        ensures
            match decode_failure(keyword, limit) {
                Some(m) => r is Err && is_invalid_params(r->Err_0, m),
                None => r is Ok && r->Ok_0@ == search_response(
                    keyword->Text_0@,
                    limit_value(limit)->0,
                ),
            },
    {
        match decode_query(keyword, limit) {
            Ok(query) => Ok(self.search(&query)),
            Err(e) => Err(e),
        }
    }

    /// What the server reports of itself: the protocol version, prompts,
    /// resources and tools all offered, and the instructions text.
    pub fn info(&self) -> (r: ServerDescription)
        ensures
            r.protocol_version@ == PROTOCOL_VERSION@,
            r.capabilities == (Capabilities { prompts: true, resources: true, tools: true }),
            r.instructions@ == INSTRUCTIONS@,
    {
        ServerDescription {
            protocol_version: String::from_str(PROTOCOL_VERSION),
            capabilities: Capabilities { prompts: true, resources: true, tools: true },
            instructions: String::from_str(INSTRUCTIONS),
        }
    }

    /// The resources: there are none.
    pub fn list_resources<T>(&self) -> (r: Page<T>)
        ensures
            r.items@.len() == 0,
            r.next_cursor is None,
    {
        Page { items: Vec::new(), next_cursor: None }
    }

    /// The resource templates: there are none.
    pub fn list_resource_templates<T>(&self) -> (r: Page<T>)
        ensures
            r.items@.len() == 0,
            r.next_cursor is None,
    {
        Page { items: Vec::new(), next_cursor: None }
    }

    /// The prompts: there are none.
    pub fn list_prompts<T>(&self) -> (r: Page<T>)
        ensures
            r.items@.len() == 0,
            r.next_cursor is None,
    {
        Page { items: Vec::new(), next_cursor: None }
    }

    /// Reading a resource always fails: no resource exists. The error names `uri`.
    pub fn read_resource(&self, uri: &str) -> (r: ToolError)
        ensures
            match r {
                ToolError::ResourceNotFound { message, uri: u } => message@ == RESOURCE_NOT_FOUND@
                    && u@ == uri@,
                _ => false,
            },
    {
        ToolError::ResourceNotFound {
            message: String::from_str(RESOURCE_NOT_FOUND),
            uri: String::from_str(uri),
        }
    }

    /// Getting a prompt always fails as invalid parameters: no prompt exists.
    pub fn get_prompt(&self, name: &str) -> (r: ToolError)
        ensures
            is_invalid_params(r, PROMPT_NOT_FOUND@),
    {
        ToolError::InvalidParams { message: String::from_str(PROMPT_NOT_FOUND) }
    }
}

/// A search depends on its query alone: two searches with the same keyword
/// and limit give the same response text, since the catalog never changes.
pub proof fn lemma_search_repeatable(
    keyword: Seq<char>,
    limit: Option<i32>,
    first: Seq<char>,
    second: Seq<char>,
)
    requires
        first == search_response(keyword, limit),
        second == search_response(keyword, limit),
    ensures
        first == second,
{
}

} // verus!
