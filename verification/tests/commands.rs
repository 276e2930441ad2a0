use book_client::command::{decide, parse_command, Action, Command};

#[test]
fn get_token_is_fetch_all() {
    assert_eq!(parse_command("get"), Command::FetchAll);
}

#[test]
fn numeric_tokens_are_fetch_one() {
    assert_eq!(parse_command("1"), Command::FetchOne(1));
    assert_eq!(parse_command("2"), Command::FetchOne(2));
    assert_eq!(parse_command("3"), Command::FetchOne(3));
}

#[test]
fn exit_token_is_exit() {
    assert_eq!(parse_command("exit"), Command::Exit);
}

#[test]
fn unknown_tokens_are_invalid() {
    assert_eq!(parse_command("4"), Command::Invalid);
    assert_eq!(parse_command(""), Command::Invalid);
    assert_eq!(parse_command("GET"), Command::Invalid);
    assert_eq!(parse_command("ge t"), Command::Invalid);
    assert_eq!(parse_command("exit "), Command::Invalid);
}

#[test]
fn exit_terminates_without_a_request() {
    assert!(matches!(decide("exit"), Action::Terminate));
}

#[test]
fn invalid_tokens_reprompt_without_a_request() {
    assert!(matches!(decide("4"), Action::Reprompt));
    assert!(matches!(decide(""), Action::Reprompt));
    assert!(matches!(decide("GET"), Action::Reprompt));
}

#[test]
fn get_requests_the_collection_endpoint() {
    match decide("get") {
        Action::FetchCollection(url) => {
            assert_eq!(url, "https://rest-api-server-book.onrender.com/books");
        }
        _ => panic!("expected a collection fetch"),
    }
}

#[test]
fn numeric_tokens_request_the_item_endpoint() {
    match decide("2") {
        Action::FetchItem(url) => {
            assert_eq!(url, "https://rest-api-server-book.onrender.com/books/2");
        }
        _ => panic!("expected an item fetch"),
    }
}
