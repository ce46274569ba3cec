//! The catalog query that reads the comment of a table, described by the
//! values that are handed to the database with it.
//!
//! The query is `SELECT obj_description(relation::regclass, catalog)`. Its
//! first argument is a text value that the database casts to the table's
//! object identifier; the second names the catalog in which that identifier
//! is looked up. The outcome of running it is a comment, no comment, or the
//! database's error, for example where no such table exists.

use vstd::prelude::*;
use crate::table_name::TableName;
use crate::table_name::TableNameView;

verus! {

/// The catalog that lists tables: the second argument of every query for a
/// table's comment.
pub open spec fn table_catalog() -> Seq<char> {
    "pg_class"@
}

/// What a [`CommentQuery`] holds, as sequences of characters.
pub struct CommentQueryView {
    pub relation: Seq<char>,
    pub catalog: Seq<char>,
}

impl CommentQueryView {
    /// The query for the comment of `table`: the table is named by its
    /// quoted rendering and looked up among the tables.
    pub open spec fn for_table(table: TableNameView) -> Self {
        CommentQueryView { relation: table.quoted(), catalog: table_catalog() }
    }
}

/// The two text values of a query for a table's comment.
///
/// `relation` is the text that is cast with `::regclass`, `catalog` the
/// catalog's name that `obj_description` takes as its second argument.
#[derive(Debug)]
pub struct CommentQuery {
    pub relation: String,
    pub catalog: String,
}

impl View for CommentQuery {
    type V = CommentQueryView;

    open spec fn view(&self) -> CommentQueryView {
        CommentQueryView { relation: self.relation@, catalog: self.catalog@ }
    }
}

/// Describes the query that reads the comment of `table`.
pub fn comment_query(table: &TableName) -> (query: CommentQuery)
    ensures
        query@ == CommentQueryView::for_table(table@),
{
    CommentQuery { relation: table.quoted(), catalog: "pg_class".to_owned() }
}

} // verus!
