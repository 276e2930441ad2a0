//! Interactive book-catalogue client: command dispatch, response
//! validation against the book schema, and tabular rendering.

pub mod book;
pub mod client;
pub mod command;
pub mod digits;
pub mod json;
pub mod table;

use vstd::prelude::*;

verus! {

} // verus!
