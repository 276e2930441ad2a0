//! Endpoint URLs, the error taxonomy, and the whole handling of one HTTP
//! response: status check, JSON parse, schema validation, table rendering.

use vstd::prelude::*;

use crate::book::{book_of_json, book_from_json, books_of_json, books_from_json, books_view};
use crate::digits::{dec_digits, u32_to_string};
use crate::json::{json_parse, parsed_json};
use crate::table::{books_grid, render_books, table_text};

verus! {

/// The collection endpoint.
pub open spec fn base_url() -> Seq<char> {
    "https://rest-api-server-book.onrender.com/books"@
}

/// The item endpoint for a given id.
pub open spec fn item_url_text(id: u32) -> Seq<char> {
    base_url() + "/"@ + dec_digits(id as nat)
}

/// The URL of the collection endpoint.
pub fn collection_url() -> (r: String)
    ensures
        r@ == base_url(),
{
    String::from_str("https://rest-api-server-book.onrender.com/books")
}

/// The URL of the item endpoint for the book with the given id.
pub fn item_url(id: u32) -> (r: String)
    ensures
        r@ == item_url_text(id),
{
    let mut s = String::from_str("https://rest-api-server-book.onrender.com/books");
    s.append("/");
    let digits = u32_to_string(id);
    s.append(digits.as_str());
    s
}

/// Why a response produced no table.
#[derive(PartialEq, Eq, Structural, Clone, Copy, Debug)]
pub enum FetchError {
    /// The endpoint answered with this status instead of 200.
    Status(u16),
    /// The body is not valid JSON.
    InvalidJson,
    /// The document is valid JSON but does not fit the book schema.
    BadShape,
}

/// The diagnostic line for each failure.
pub open spec fn error_text(e: FetchError) -> Seq<char> {
    match e {
        FetchError::Status(code) => "Failed to get books: "@ + dec_digits(code as nat),
        FetchError::InvalidJson => "Failed to get books: the response is not valid JSON"@,
        FetchError::BadShape => "Failed to get books: the response does not match the book schema"@,
    }
}

impl FetchError {
    /// One diagnostic line naming the failure, with the observed HTTP status
    /// where there is one.
    pub fn message(&self) -> (r: String)
        ensures
            r@ == error_text(*self),
    {
        match self {
            FetchError::Status(code) => {
                let mut s = String::from_str("Failed to get books: ");
                let digits = u32_to_string(*code as u32);
                s.append(digits.as_str());
                s
            },
            FetchError::InvalidJson => String::from_str(
                "Failed to get books: the response is not valid JSON",
            ),
            FetchError::BadShape => String::from_str(
                "Failed to get books: the response does not match the book schema",
            ),
        }
    }
}

/// What handling a collection response yields: the rendered table text on a
/// 200 response carrying an array of book-shaped objects, and the one
/// matching error otherwise.
pub open spec fn collection_outcome(status: u16, body: Seq<char>) -> Result<Seq<char>, FetchError> {
    if status != 200 {
        Err(FetchError::Status(status))
    } else {
        match parsed_json(body) {
            None => Err(FetchError::InvalidJson),
            Some(j) => match books_of_json(j) {
                None => Err(FetchError::BadShape),
                Some(bs) => Ok(table_text(books_grid(bs))),
            },
        }
    }
}

/// What handling a single-item response yields, under the same strict book
/// schema as the collection path.
pub open spec fn item_outcome(status: u16, body: Seq<char>) -> Result<Seq<char>, FetchError> {
    if status != 200 {
        Err(FetchError::Status(status))
    } else {
        match parsed_json(body) {
            None => Err(FetchError::InvalidJson),
            Some(j) => match book_of_json(j) {
                None => Err(FetchError::BadShape),
                Some(b) => Ok(table_text(books_grid(seq![b]))),
            },
        }
    }
}

/// The view of a rendering result.
pub open spec fn outcome_view(r: Result<String, FetchError>) -> Result<Seq<char>, FetchError> {
    match r {
        Ok(s) => Ok(s@),
        Err(e) => Err(e),
    }
}

/// Handles a collection response, exactly as `collection_outcome` says:
/// checks the status, parses the body, validates every element against the
/// book schema, and renders the table.
pub fn render_collection_response(status: u16, body: &str) -> (r: Result<String, FetchError>)
    ensures
        outcome_view(r) == collection_outcome(status, body@),
{
    if status != 200 {
        return Err(FetchError::Status(status));
    }
    let doc = match json_parse(body) {
        None => {
            return Err(FetchError::InvalidJson);
        },
        Some(doc) => doc,
    };
    match books_from_json(&doc) {
        None => Err(FetchError::BadShape),
        Some(books) => Ok(render_books(&books)),
    }
}

/// Handles a single-item response, exactly as `item_outcome` says; the one
/// book is rendered as a one-row table under the same header.
pub fn render_item_response(status: u16, body: &str) -> (r: Result<String, FetchError>)
    ensures
        outcome_view(r) == item_outcome(status, body@),
{
    if status != 200 {
        return Err(FetchError::Status(status));
    }
    let doc = match json_parse(body) {
        None => {
            return Err(FetchError::InvalidJson);
        },
        Some(doc) => doc,
    };
    match book_from_json(&doc) {
        None => Err(FetchError::BadShape),
        Some(book) => {
            let mut books: Vec<crate::book::Book> = Vec::new();
            books.push(book);
            proof {
                assert(books_view(books@) =~= seq![books@[0]@]);
            }
            Ok(render_books(&books))
        },
    }
}

/// A response whose status is not 200 fails with exactly that status, on
/// both endpoints, whatever the body holds.
pub proof fn lemma_non_success_status(status: u16, body: Seq<char>)
    requires
        status != 200,
    ensures
        collection_outcome(status, body) == Err::<Seq<char>, FetchError>(
            FetchError::Status(status),
        ),
        item_outcome(status, body) == Err::<Seq<char>, FetchError>(FetchError::Status(status)),
{
}

/// A collection with one element that is not book-shaped (a missing or
/// mistyped field, or no object at all) is rejected whole: no partial table
/// is rendered.
pub proof fn lemma_misshapen_element_rejected(
    body: Seq<char>,
    es: Seq<crate::json::ElementV>,
    i: int,
)
    requires
        parsed_json(body) == Some(crate::json::JsonValueV::Arr(es)),
        0 <= i < es.len(),
        crate::book::book_of_element(es[i]) is None,
    ensures
        collection_outcome(200, body) == Err::<Seq<char>, FetchError>(FetchError::BadShape),
{
}

} // verus!
