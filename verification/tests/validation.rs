use book_client::book::{book_from_json, books_from_json};
use book_client::client::{
    collection_url, item_url, render_collection_response, render_item_response, FetchError,
};
use book_client::json::{Element, JsonValue, Scalar};

fn field(key: &str, value: Scalar) -> (String, Scalar) {
    (key.to_string(), value)
}

fn full_book_fields(id: i64, title: &str, author: &str, description: &str) -> Vec<(String, Scalar)> {
    vec![
        field("id", Scalar::Int(id)),
        field("title", Scalar::Text(title.to_string())),
        field("author", Scalar::Text(author.to_string())),
        field("description", Scalar::Text(description.to_string())),
    ]
}

#[test]
fn a_full_object_is_a_book() {
    let doc = JsonValue::Obj(full_book_fields(5, "Dune", "Frank Herbert", "sand"));
    let b = book_from_json(&doc).unwrap();
    assert_eq!(b.id, 5);
    assert_eq!(b.title, "Dune");
    assert_eq!(b.author, "Frank Herbert");
    assert_eq!(b.description, "sand");
}

#[test]
fn a_missing_field_fails_the_element() {
    let fields = vec![
        field("id", Scalar::Int(1)),
        field("author", Scalar::Text("A".to_string())),
        field("description", Scalar::Text("D".to_string())),
    ];
    let doc = JsonValue::Arr(vec![Element::Object(fields)]);
    assert!(books_from_json(&doc).is_none());
}

#[test]
fn one_misshapen_element_rejects_the_whole_collection() {
    let good = Element::Object(full_book_fields(1, "T", "A", "D"));
    let bad = Element::Object(vec![field("id", Scalar::Int(2))]);
    let doc = JsonValue::Arr(vec![good, bad]);
    assert!(books_from_json(&doc).is_none());
}

#[test]
fn a_non_object_element_rejects_the_collection() {
    let good = Element::Object(full_book_fields(1, "T", "A", "D"));
    let doc = JsonValue::Arr(vec![good, Element::Other]);
    assert!(books_from_json(&doc).is_none());
}

#[test]
fn a_non_array_document_is_no_collection() {
    let doc = JsonValue::Obj(full_book_fields(1, "T", "A", "D"));
    assert!(books_from_json(&doc).is_none());
}

#[test]
fn mistyped_fields_fail_the_book() {
    let doc = JsonValue::Obj(vec![
        field("id", Scalar::Text("1".to_string())),
        field("title", Scalar::Text("T".to_string())),
        field("author", Scalar::Text("A".to_string())),
        field("description", Scalar::Text("D".to_string())),
    ]);
    assert!(book_from_json(&doc).is_none());
}

#[test]
fn an_id_out_of_range_fails_the_book() {
    let negative = JsonValue::Obj(full_book_fields(-1, "T", "A", "D"));
    assert!(book_from_json(&negative).is_none());
    let too_big = JsonValue::Obj(full_book_fields(4294967296, "T", "A", "D"));
    assert!(book_from_json(&too_big).is_none());
}

#[test]
fn extra_fields_are_ignored() {
    let mut fields = full_book_fields(7, "T", "A", "D");
    fields.push(field("publisher", Scalar::Text("P".to_string())));
    let b = book_from_json(&JsonValue::Obj(fields)).unwrap();
    assert_eq!(b.id, 7);
}

#[test]
fn non_success_status_carries_the_status_code() {
    assert_eq!(
        render_collection_response(404, "[]").unwrap_err(),
        FetchError::Status(404)
    );
    assert_eq!(
        render_item_response(500, "{}").unwrap_err(),
        FetchError::Status(500)
    );
}

#[test]
fn an_invalid_body_is_a_parse_failure() {
    assert_eq!(
        render_collection_response(200, "not json").unwrap_err(),
        FetchError::InvalidJson
    );
    assert_eq!(
        render_item_response(200, "{\"id\":").unwrap_err(),
        FetchError::InvalidJson
    );
}

#[test]
fn a_collection_with_a_bad_element_renders_nothing() {
    let body = "[{\"id\":1,\"title\":\"T\",\"author\":\"A\",\"description\":\"D\"},{\"id\":2,\"author\":\"A\",\"description\":\"D\"}]";
    assert_eq!(
        render_collection_response(200, body).unwrap_err(),
        FetchError::BadShape
    );
}

#[test]
fn a_fractional_id_fails_the_schema() {
    let body = "{\"id\":1.5,\"title\":\"T\",\"author\":\"A\",\"description\":\"D\"}";
    assert_eq!(
        render_item_response(200, body).unwrap_err(),
        FetchError::BadShape
    );
}

#[test]
fn a_nested_field_value_fails_the_schema() {
    let body = "{\"id\":1,\"title\":{\"x\":1},\"author\":\"A\",\"description\":\"D\"}";
    assert_eq!(
        render_item_response(200, body).unwrap_err(),
        FetchError::BadShape
    );
}

#[test]
fn a_scalar_document_fits_neither_path() {
    assert_eq!(
        render_collection_response(200, "42").unwrap_err(),
        FetchError::BadShape
    );
    assert_eq!(
        render_item_response(200, "\"book\"").unwrap_err(),
        FetchError::BadShape
    );
}

#[test]
fn error_messages_name_the_failure() {
    assert_eq!(
        FetchError::Status(404).message(),
        "Failed to get books: 404"
    );
    assert_eq!(
        FetchError::InvalidJson.message(),
        "Failed to get books: the response is not valid JSON"
    );
}

#[test]
fn endpoint_urls() {
    assert_eq!(
        collection_url(),
        "https://rest-api-server-book.onrender.com/books"
    );
    assert_eq!(
        item_url(3),
        "https://rest-api-server-book.onrender.com/books/3"
    );
}
