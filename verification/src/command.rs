//! The interactive loop's dispatch: a trimmed input token becomes a command,
//! and a command becomes the one action the loop takes for it.

use vstd::prelude::*;

use crate::client::{base_url, item_url_text};
use crate::digits::str_eq;

verus! {

/// The closed command set the prompt accepts.
#[derive(PartialEq, Eq, Structural, Clone, Copy, Debug)]
pub enum Command {
    /// Fetch the whole collection (`get`).
    FetchAll,
    /// Fetch the book with this id (`1`, `2` or `3`).
    FetchOne(u32),
    /// Leave the loop (`exit`).
    Exit,
    /// Anything else: report and prompt again.
    Invalid,
}

/// Which command a token denotes; tokens are matched exactly, so `GET` or an
/// empty line are invalid.
pub open spec fn spec_command(s: Seq<char>) -> Command {
    if s == "get"@ {
        Command::FetchAll
    } else if s == "1"@ {
        Command::FetchOne(1)
    } else if s == "2"@ {
        Command::FetchOne(2)
    } else if s == "3"@ {
        Command::FetchOne(3)
    } else if s == "exit"@ {
        Command::Exit
    } else {
        Command::Invalid
    }
}

/// Classifies a trimmed input token, exactly as `spec_command` says.
pub fn parse_command(token: &str) -> (r: Command)
    ensures
        r == spec_command(token@),
{
    if str_eq(token, "get") {
        Command::FetchAll
    } else if str_eq(token, "1") {
        Command::FetchOne(1)
    } else if str_eq(token, "2") {
        Command::FetchOne(2)
    } else if str_eq(token, "3") {
        Command::FetchOne(3)
    } else if str_eq(token, "exit") {
        Command::Exit
    } else {
        Command::Invalid
    }
}

/// What one loop iteration does for a token. Only the two fetch actions
/// carry a request URL: exiting and re-prompting issue no request.
pub enum Action {
    /// Leave the loop.
    Terminate,
    /// Report an invalid choice and prompt again.
    Reprompt,
    /// Request the collection endpoint at this URL.
    FetchCollection(String),
    /// Request the item endpoint at this URL.
    FetchItem(String),
}

/// The action owed to a command: `Exit` terminates and `Invalid` re-prompts,
/// both without a URL to call; the fetch commands carry their endpoint.
pub open spec fn action_for(a: Action, c: Command) -> bool {
    match c {
        Command::Exit => a is Terminate,
        Command::Invalid => a is Reprompt,
        Command::FetchAll => a matches Action::FetchCollection(u) && u@ == base_url(),
        Command::FetchOne(id) => a matches Action::FetchItem(u) && u@ == item_url_text(id),
    }
}

/// Decides one loop iteration from the trimmed input token.
pub fn decide(token: &str) -> (a: Action)
    ensures
        action_for(a, spec_command(token@)),
{
    match parse_command(token) {
        Command::FetchAll => Action::FetchCollection(crate::client::collection_url()),
        Command::FetchOne(id) => Action::FetchItem(crate::client::item_url(id)),
        Command::Exit => Action::Terminate,
        Command::Invalid => Action::Reprompt,
    }
}

} // verus!
