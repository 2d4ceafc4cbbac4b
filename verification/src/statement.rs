//! What a prepared statement tells of the columns of its result.

use vstd::prelude::*;

verus! {

/// A column of the result of a statement.
#[derive(Clone, Copy, Debug)]
pub struct Column<'stmt> {
    /// The name assigned to the column in the result set.
    pub name: &'stmt str,
    /// The name of the column in the table it comes from.
    pub origin_name: Option<&'stmt str>,
    /// The name of the table it comes from.
    pub table_name: Option<&'stmt str>,
    /// The name of the database it comes from.
    pub database_name: Option<&'stmt str>,
    /// The declared type of the column.
    pub decl_type: Option<&'stmt str>,
}

impl Column<'_> {
    /// Returns the name assigned to the column in the result set.
    pub fn name(&self) -> (name: &str)
        ensures
            name == self.name,
    {
        self.name
    }

    /// Returns the name of the column in the origin table.
    pub fn origin_name(&self) -> (name: Option<&str>)
        ensures
            name == self.origin_name,
    {
        self.origin_name
    }

    /// Returns the name of the origin table.
    pub fn table_name(&self) -> (name: Option<&str>)
        ensures
            name == self.table_name,
    {
        self.table_name
    }

    /// Returns the name of the origin database.
    pub fn database_name(&self) -> (name: Option<&str>)
        ensures
            name == self.database_name,
    {
        self.database_name
    }

    /// Returns the type of the column (`None` for an expression).
    pub fn decl_type(&self) -> (decl_type: Option<&str>)
        ensures
            decl_type == self.decl_type,
    {
        self.decl_type
    }
}

} // verus!
