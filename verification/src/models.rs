//! Example row types for paginated queries.

use vstd::prelude::*;

verus! {

/// A book row: one record of the `book` table.
#[derive(Clone, Debug)]
pub struct Book {
    pub id: String,
    pub name: String,
}

/// A post row: one record of the `post` table, owned by a book.
#[derive(Clone, Debug)]
pub struct Post {
    pub id: String,
    pub book_id: String,
    pub name: String,
}

} // verus!
