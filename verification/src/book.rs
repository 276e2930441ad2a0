//! The book record and strict validation of parsed JSON against its schema.
//!
//! Both response shapes are held to the same contract: a book is an object
//! with an integer `id` that fits in `u32` and text `title`, `author` and
//! `description` fields; anything else is rejected whole.

use vstd::prelude::*;

use crate::digits::str_eq;
use crate::json::{Element, ElementV, JsonValue, JsonValueV, Scalar, ScalarV, fields_view};

verus! {

/// One catalogue entry.
pub struct Book {
    pub id: u32,
    pub title: String,
    pub author: String,
    pub description: String,
}

/// The mathematical value of a `Book`.
pub struct BookV {
    pub id: u32,
    pub title: Seq<char>,
    pub author: Seq<char>,
    pub description: Seq<char>,
}

impl View for Book {
    type V = BookV;

    open spec fn view(&self) -> BookV {
        BookV {
            id: self.id,
            title: self.title@,
            author: self.author@,
            description: self.description@,
        }
    }
}

/// The mathematical value of a list of books.
pub open spec fn books_view(bs: Seq<Book>) -> Seq<BookV> {
    bs.map_values(|b: Book| b@)
}

/// The value of the first field named `k`, searching from position `i`.
pub open spec fn field_lookup_from(
    fs: Seq<(Seq<char>, ScalarV)>,
    k: Seq<char>,
    i: int,
) -> Option<ScalarV>
    decreases fs.len() - i,
{
    if i < 0 || i >= fs.len() {
        None
    } else if fs[i].0 == k {
        Some(fs[i].1)
    } else {
        field_lookup_from(fs, k, i + 1)
    }
}

/// The value of the first field named `k`, if any.
pub open spec fn field_lookup(fs: Seq<(Seq<char>, ScalarV)>, k: Seq<char>) -> Option<ScalarV> {
    field_lookup_from(fs, k, 0)
}

/// The book an object's fields describe, if they fit the schema exactly.
pub open spec fn book_of_fields(fs: Seq<(Seq<char>, ScalarV)>) -> Option<BookV> {
    match (
        field_lookup(fs, "id"@),
        field_lookup(fs, "title"@),
        field_lookup(fs, "author"@),
        field_lookup(fs, "description"@),
    ) {
        (
            Some(ScalarV::Int(i)),
            Some(ScalarV::Text(t)),
            Some(ScalarV::Text(a)),
            Some(ScalarV::Text(d)),
        ) => if 0 <= i <= u32::MAX {
            Some(BookV { id: i as u32, title: t, author: a, description: d })
        } else {
            None
        },
        _ => None,
    }
}

/// The book a single-item document describes, if it is a book-shaped object.
pub open spec fn book_of_json(j: JsonValueV) -> Option<BookV> {
    match j {
        JsonValueV::Obj(fs) => book_of_fields(fs),
        _ => None,
    }
}

/// The book one collection element describes, if it is a book-shaped object.
pub open spec fn book_of_element(e: ElementV) -> Option<BookV> {
    match e {
        ElementV::Object(fs) => book_of_fields(fs),
        ElementV::Other => None,
    }
}

/// Whether every element of a collection is book-shaped.
pub open spec fn all_books(es: Seq<ElementV>) -> bool {
    forall|i: int| 0 <= i < es.len() ==> #[trigger] book_of_element(es[i]) is Some
}

/// The books of a collection whose elements are all book-shaped, in order.
pub open spec fn books_seq(es: Seq<ElementV>) -> Seq<BookV> {
    es.map_values(|e: ElementV| book_of_element(e)->Some_0)
}

/// The books a collection document describes: an array, every element
/// book-shaped; any other document, or any misshapen element, is rejected.
pub open spec fn books_of_json(j: JsonValueV) -> Option<Seq<BookV>> {
    match j {
        JsonValueV::Arr(es) => if all_books(es) {
            Some(books_seq(es))
        } else {
            None
        },
        _ => None,
    }
}

/// First field of the given name, as `field_lookup` describes.
fn lookup_field<'a>(fields: &'a Vec<(String, Scalar)>, key: &str) -> (r: Option<&'a Scalar>)
    ensures
        match r {
            Some(s) => field_lookup(fields_view(fields@), key@) == Some(s@),
            None => field_lookup(fields_view(fields@), key@) is None,
        },
{
    let ghost fv = fields_view(fields@);
    let n = fields.len();
    for i in 0..n
        invariant
            n == fields.len(),
            fv == fields_view(fields@),
            fv.len() == fields.len(),
            forall|j: int| 0 <= j < fv.len() ==> #[trigger] fv[j] == (fields@[j].0@, fields@[j].1@),
            field_lookup(fv, key@) == field_lookup_from(fv, key@, i as int),
    {
        if str_eq(fields[i].0.as_str(), key) {
            return Some(&fields[i].1);
        }
    }
    None
}

/// The book an object's field list describes, or a shape failure, exactly as
/// `book_of_fields` decides.
pub fn book_from_fields(fields: &Vec<(String, Scalar)>) -> (r: Option<Book>)
    ensures
        match r {
            Some(b) => book_of_fields(fields_view(fields@)) == Some(b@),
            None => book_of_fields(fields_view(fields@)) is None,
        },
{
    let id_s = lookup_field(fields, "id");
    let title_s = lookup_field(fields, "title");
    let author_s = lookup_field(fields, "author");
    let descr_s = lookup_field(fields, "description");
    match (id_s, title_s, author_s, descr_s) {
        (
            Some(Scalar::Int(i)),
            Some(Scalar::Text(t)),
            Some(Scalar::Text(a)),
            Some(Scalar::Text(d)),
        ) => {
            if 0 <= *i && *i <= u32::MAX as i64 {
                Some(
                    Book {
                        id: *i as u32,
                        title: t.clone(),
                        author: a.clone(),
                        description: d.clone(),
                    },
                )
            } else {
                None
            }
        },
        _ => None,
    }
}

/// The book a single-item document describes, exactly as `book_of_json`
/// decides.
pub fn book_from_json(doc: &JsonValue) -> (r: Option<Book>)
    ensures
        match r {
            Some(b) => book_of_json(doc@) == Some(b@),
            None => book_of_json(doc@) is None,
        },
{
    match doc {
        JsonValue::Obj(fields) => book_from_fields(fields),
        _ => None,
    }
}

/// The books a collection document describes, exactly as `books_of_json`
/// decides: the whole array is rejected as soon as one element fails.
pub fn books_from_json(doc: &JsonValue) -> (r: Option<Vec<Book>>)
    ensures
        match r {
            Some(bs) => books_of_json(doc@) == Some(books_view(bs@)),
            None => books_of_json(doc@) is None,
        },
{
    let elems = match doc {
        JsonValue::Arr(es) => es,
        _ => {
            return None;
        },
    };
    let ghost ev = elems@.map_values(|e: Element| e@);
    proof {
        assert(doc@ == JsonValueV::Arr(ev));
    }
    let mut out: Vec<Book> = Vec::new();
    let n = elems.len();
    for i in 0..n
        invariant
            n == elems.len(),
            doc@ == JsonValueV::Arr(ev),
            ev == elems@.map_values(|e: Element| e@),
            ev.len() == elems.len(),
            forall|j: int| 0 <= j < ev.len() ==> #[trigger] ev[j] == elems@[j]@,
            out@.len() == i,
            forall|j: int| 0 <= j < i ==> #[trigger] book_of_element(ev[j]) is Some,
            forall|j: int| 0 <= j < i ==> #[trigger] out@[j]@ == book_of_element(ev[j])->Some_0,
    {
        let b = match &elems[i] {
            Element::Object(fields) => book_from_fields(fields),
            Element::Other => None,
        };
        match b {
            Some(b) => {
                out.push(b);
            },
            None => {
                proof {
                    assert(book_of_element(ev[i as int]) is None);
                    assert(!all_books(ev));
                }
                return None;
            },
        }
    }
    proof {
        assert(all_books(ev));
        assert(books_view(out@) =~= books_seq(ev));
    }
    Some(out)
}

} // verus!
