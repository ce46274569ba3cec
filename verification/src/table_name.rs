//! A table's identifier, with or without the schema that holds it, and its
//! rendering between double quotes.

use vstd::prelude::*;
use vstd::std_specs::cmp::PartialEqSpecImpl;
use vstd::string::StringExecFns;

verus! {

/// The text that opens and closes a quoted identifier: one double quote.
pub open spec fn quote_mark() -> Seq<char> {
    seq!['"']
}

/// The text that stands between a quoted schema and a quoted table: one dot.
pub open spec fn separator() -> Seq<char> {
    seq!['.']
}

/// An identifier between two double quotes. A double quote inside the
/// identifier is left as it is.
pub open spec fn quote(ident: Seq<char>) -> Seq<char> {
    quote_mark() + ident + quote_mark()
}

/// What a [`TableName`] holds, as sequences of characters.
pub struct TableNameView {
    pub sql_name: Seq<char>,
    pub rust_name: Seq<char>,
    pub schema: Option<Seq<char>>,
}

impl TableNameView {
    /// The table `name` of no stated schema.
    pub open spec fn from_name(name: Seq<char>) -> Self {
        TableNameView { sql_name: name, rust_name: name, schema: None }
    }

    /// The table `name` of the schema `schema`.
    pub open spec fn new(name: Seq<char>, schema: Seq<char>) -> Self {
        TableNameView { sql_name: name, rust_name: name, schema: Some(schema) }
    }

    /// The name as it is written in SQL: the stored name between double
    /// quotes, and before it, where there is a schema, the schema between
    /// double quotes and a dot.
    pub open spec fn quoted(self) -> Seq<char> {
        match self.schema {
            Some(schema) => quote(schema) + separator() + quote(self.sql_name),
            None => quote(self.sql_name),
        }
    }
}

/// The name of a table.
///
/// `sql_name` is the name under which the database's catalog knows the table,
/// `rust_name` the name under which the caller knows it, and `schema` the
/// schema that holds the table, where one is stated. Both constructors give
/// the two names the same text.
#[derive(Debug, Eq, PartialOrd, Ord)]
pub struct TableName {
    pub sql_name: String,
    pub rust_name: String,
    pub schema: Option<String>,
}

impl View for TableName {
    type V = TableNameView;

    open spec fn view(&self) -> TableNameView {
        TableNameView {
            sql_name: self.sql_name@,
            rust_name: self.rust_name@,
            schema: match self.schema {
                Some(schema) => Some(schema@),
                None => None,
            },
        }
    }
}

impl Clone for TableName {
    fn clone(&self) -> (copy: Self)
        ensures
            copy@ == self@,
    {
        TableName {
            sql_name: self.sql_name.clone(),
            rust_name: self.rust_name.clone(),
            schema: match &self.schema {
                Some(schema) => Some(schema.clone()),
                None => None,
            },
        }
    }
}

impl PartialEq for TableName {
    fn eq(&self, other: &Self) -> (equal: bool) {
        let same_schema = match (&self.schema, &other.schema) {
            (Some(mine), Some(theirs)) => *mine == *theirs,
            (None, None) => true,
            _ => false,
        };
        self.sql_name == other.sql_name && self.rust_name == other.rust_name && same_schema
    }
}

impl PartialEqSpecImpl for TableName {
    open spec fn obeys_eq_spec() -> bool {
        true
    }

    open spec fn eq_spec(&self, other: &Self) -> bool {
        self@ == other@
    }
}

impl TableName {
    /// The table `name`, with no schema stated.
    ///
    /// The stored name is the `String` that `name.into()` gives: for a `&str`
    /// or a `String`, the text of `name` itself.
    pub fn from_name<T: Into<String>>(name: T) -> (table: Self)
        ensures
            call_ensures(T::into, (name,), table.sql_name),
            table@ == TableNameView::from_name(table.sql_name@),
    {
        let name: String = name.into();
        TableName { rust_name: name.clone(), sql_name: name, schema: None }
    }

    /// The table `name` of the schema `schema`.
    ///
    /// The stored name and the schema are the `String`s that `name.into()` and
    /// `schema.into()` give.
    pub fn new<T, U>(name: T, schema: U) -> (table: Self) where T: Into<String>, U: Into<String>
        ensures
            call_ensures(T::into, (name,), table.sql_name),
            table.schema is Some,
            call_ensures(U::into, (schema,), table.schema->0),
            table@ == TableNameView::new(table.sql_name@, table.schema->0@),
    {
        let name: String = name.into();
        TableName { rust_name: name.clone(), sql_name: name, schema: Some(schema.into()) }
    }

    /// The name as it is written in SQL, each part between double quotes of
    /// its own: `"schema"."name"`, or `"name"` where no schema is stated.
    pub fn quoted(&self) -> (text: String)
        ensures
            text@ == self@.quoted(),
    {
        let mut text = String::new();
        match &self.schema {
            Some(schema) => {
                push_quoted(&mut text, schema.as_str());
                text.append(".");
                proof {
                    reveal_strlit(".");
                    assert("."@ =~= separator());
                }
            },
            None => {},
        }
        push_quoted(&mut text, self.sql_name.as_str());
        text
    }
}

/// A table named without a schema is rendered as its name between two double
/// quotes, and as nothing more: two characters longer than the name.
pub proof fn bare_name_is_quoted_once(name: Seq<char>)
    ensures
        TableNameView::from_name(name).quoted() == seq!['"'] + name + seq!['"'],
        TableNameView::from_name(name).quoted().len() == name.len() + 2,
{
    assert(TableNameView::from_name(name).quoted() =~= seq!['"'] + name + seq!['"']);
}

/// A table named with its schema is rendered as the schema between double
/// quotes, a dot, and the name between double quotes: five characters longer
/// than the two together.
pub proof fn qualified_name_is_quoted_by_parts(name: Seq<char>, schema: Seq<char>)
    ensures
        TableNameView::new(name, schema).quoted() == seq!['"'] + schema + seq!['"', '.', '"'] + name
            + seq!['"'],
        TableNameView::new(name, schema).quoted().len() == schema.len() + name.len() + 5,
{
    assert(TableNameView::new(name, schema).quoted() =~= seq!['"'] + schema + seq!['"', '.', '"']
        + name + seq!['"']);
}

/// Appends `ident` to `text`, between two double quotes.
fn push_quoted(text: &mut String, ident: &str)
    ensures
        final(text)@ == old(text)@ + quote(ident@),
{
    text.append("\"");
    text.append(ident);
    text.append("\"");
    proof {
        reveal_strlit("\"");
        assert("\""@ =~= quote_mark());
        assert(text@ =~= old(text)@ + quote(ident@));
    }
}

} // verus!
