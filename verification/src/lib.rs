//! Schema-qualified table names for PostgreSQL, their quoted rendering, and
//! the description of the catalog query that reads a table's comment.
//!
//! The library computes; it opens no connection. A caller renders a
//! [`TableName`], or asks [`comment_query`] for the two text values of the
//! query, and hands them to its database driver.

pub mod comment;
pub mod conversions;
pub mod table_name;

pub use crate::comment::comment_query;
pub use crate::comment::CommentQuery;
pub use crate::table_name::TableName;
