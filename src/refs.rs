//! Identifiers of tables and columns across a query.
use crate::index_map::MapKey;
use crate::literal::ColumnType;
use vstd::prelude::*;

verus! {

/// A namespace-qualified table name.
#[derive(Debug, PartialEq, Eq)]
pub struct TableRef {
    pub schema: String,
    pub table: String,
}

impl View for TableRef {
    type V = (Seq<char>, Seq<char>);

    open spec fn view(&self) -> (Seq<char>, Seq<char>) {
        (self.schema@, self.table@)
    }
}

impl Clone for TableRef {
    fn clone(&self) -> (r: Self)
        ensures
            r == *self,
    {
        TableRef { schema: self.schema.clone(), table: self.table.clone() }
    }
}

impl MapKey for TableRef {
    fn key_eq(&self, o: &Self) -> (r: bool) {
        self.schema == o.schema && self.table == o.table
    }
}

impl TableRef {
    /// The table `table` in namespace `schema`.
    pub fn new(schema: String, table: String) -> (r: TableRef)
        ensures
            r.schema == schema,
            r.table == table,
    {
        TableRef { schema, table }
    }

    pub fn schema_id(&self) -> (r: &String)
        ensures
            *r == self.schema,
    {
        &self.schema
    }

    pub fn table_id(&self) -> (r: &String)
        ensures
            *r == self.table,
    {
        &self.table
    }
}

/// A column of a table, with its type. Two references name the same column
/// when table and identifier agree; the type is carried alongside.
#[derive(Debug)]
pub struct ColumnRef {
    pub table_ref: TableRef,
    pub column_id: String,
    pub column_type: ColumnType,
}

impl View for ColumnRef {
    type V = ((Seq<char>, Seq<char>), Seq<char>);

    open spec fn view(&self) -> ((Seq<char>, Seq<char>), Seq<char>) {
        (self.table_ref@, self.column_id@)
    }
}

impl Clone for ColumnRef {
    fn clone(&self) -> (r: Self)
        ensures
            r == *self,
    {
        ColumnRef {
            table_ref: self.table_ref.clone(),
            column_id: self.column_id.clone(),
            column_type: self.column_type,
        }
    }
}

impl MapKey for ColumnRef {
    fn key_eq(&self, o: &Self) -> (r: bool) {
        self.table_ref.key_eq(&o.table_ref) && self.column_id == o.column_id
    }
}

impl ColumnRef {
    pub fn new(table_ref: TableRef, column_id: String, column_type: ColumnType) -> (r: ColumnRef)
        ensures
            r.table_ref == table_ref,
            r.column_id == column_id,
            r.column_type == column_type,
    {
        ColumnRef { table_ref, column_id, column_type }
    }

    pub fn table_ref(&self) -> (r: TableRef)
        ensures
            r == self.table_ref,
    {
        self.table_ref.clone()
    }

    pub fn column_id(&self) -> (r: String)
        ensures
            r == self.column_id,
    {
        self.column_id.clone()
    }

    pub fn column_type(&self) -> (r: ColumnType)
        ensures
            r == self.column_type,
    {
        self.column_type
    }
}

/// A named, typed column of a plan's output schema.
#[derive(Debug, PartialEq, Eq)]
pub struct ColumnField {
    pub name: String,
    pub column_type: ColumnType,
}

impl ColumnField {
    pub fn new(name: String, column_type: ColumnType) -> (r: ColumnField)
        ensures
            r.name == name,
            r.column_type == column_type,
    {
        ColumnField { name, column_type }
    }
}

} // verus!
