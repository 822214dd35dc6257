//! Arena-backed typed columns and the tables built from them.
use crate::arena::{arena_len_ok, fill_in_arena};
use crate::index_map::IndexMap;
use crate::literal::{literal_type, ColumnType, LiteralValue};
use vstd::prelude::*;

verus! {

/// A homogeneously typed column whose storage lives in an arena.
#[derive(Clone, Copy, Debug, PartialEq, Eq)]
pub enum Column<'a> {
    Boolean(&'a [bool]),
    TinyInt(&'a [i8]),
    SmallInt(&'a [i16]),
    Int(&'a [i32]),
    BigInt(&'a [i64]),
}

impl<'a> Column<'a> {
    /// The column's entries, each as a literal of the column's type.
    pub open spec fn values(&self) -> Seq<LiteralValue> {
        match *self {
            Column::Boolean(s) => Seq::new(s@.len(), |i: int| LiteralValue::Boolean(s@[i])),
            Column::TinyInt(s) => Seq::new(s@.len(), |i: int| LiteralValue::TinyInt(s@[i])),
            Column::SmallInt(s) => Seq::new(s@.len(), |i: int| LiteralValue::SmallInt(s@[i])),
            Column::Int(s) => Seq::new(s@.len(), |i: int| LiteralValue::Int(s@[i])),
            Column::BigInt(s) => Seq::new(s@.len(), |i: int| LiteralValue::BigInt(s@[i])),
        }
    }

    pub open spec fn spec_column_type(&self) -> ColumnType {
        match *self {
            Column::Boolean(_) => ColumnType::Boolean,
            Column::TinyInt(_) => ColumnType::TinyInt,
            Column::SmallInt(_) => ColumnType::SmallInt,
            Column::Int(_) => ColumnType::Int,
            Column::BigInt(_) => ColumnType::BigInt,
        }
    }

    pub fn len(&self) -> (r: usize)
        ensures
            r == self.values().len(),
    {
        match self {
            Column::Boolean(s) => s.len(),
            Column::TinyInt(s) => s.len(),
            Column::SmallInt(s) => s.len(),
            Column::Int(s) => s.len(),
            Column::BigInt(s) => s.len(),
        }
    }

    pub fn column_type(&self) -> (r: ColumnType)
        ensures
            r == self.spec_column_type(),
    {
        match self {
            Column::Boolean(_) => ColumnType::Boolean,
            Column::TinyInt(_) => ColumnType::TinyInt,
            Column::SmallInt(_) => ColumnType::SmallInt,
            Column::Int(_) => ColumnType::Int,
            Column::BigInt(_) => ColumnType::BigInt,
        }
    }

    /// A column of `length` copies of `literal`, allocated in `alloc`.
    pub fn from_literal_with_length(literal: &LiteralValue, length: usize, alloc: &'a bumpalo::Bump) -> (r: Column<'a>)
        requires
            arena_len_ok(length as nat),
        ensures
            r.spec_column_type() == literal_type(*literal),
            r.values() == Seq::new(length as nat, |i: int| *literal),
    {
        broadcast use vstd::layout::layout_of_primitives;

        let r = match *literal {
            LiteralValue::Boolean(v) => Column::Boolean(fill_in_arena(alloc, length, v)),
            LiteralValue::TinyInt(v) => Column::TinyInt(fill_in_arena(alloc, length, v)),
            LiteralValue::SmallInt(v) => Column::SmallInt(fill_in_arena(alloc, length, v)),
            LiteralValue::Int(v) => Column::Int(fill_in_arena(alloc, length, v)),
            LiteralValue::BigInt(v) => Column::BigInt(fill_in_arena(alloc, length, v)),
        };
        assert(r.values() =~= Seq::new(length as nat, |i: int| *literal));
        r
    }
}

/// Whether every column has exactly `n` entries.
pub open spec fn all_have_len(cols: Seq<Column>, n: nat) -> bool {
    forall|i: int| 0 <= i < cols.len() ==> #[trigger] cols[i].values().len() == n
}

/// Options for building a table; a given row count is forced on the table.
#[derive(Clone, Copy, Debug, PartialEq, Eq, Structural)]
pub struct TableOptions {
    pub row_count: Option<usize>,
}

impl TableOptions {
    pub fn new(row_count: Option<usize>) -> (r: TableOptions)
        ensures
            r.row_count == row_count,
    {
        TableOptions { row_count }
    }
}

/// Why a set of columns does not form a table.
#[derive(Clone, Copy, Debug, PartialEq, Eq, Structural)]
pub enum TableError {
    /// Columns disagree in length.
    ColumnLengthMismatch,
    /// A column's length differs from the row count given in the options.
    ColumnLengthMismatchWithSpecifiedRowCount,
    /// No column and no row count: the row count cannot be known.
    EmptyTableWithoutSpecifiedRowCount,
}

/// The outcome of building a table from `cols`: an error, or the row count
/// the table gets.
pub open spec fn table_outcome(cols: Seq<Column>, row_count: Option<usize>) -> Result<nat, TableError> {
    match row_count {
        Some(n) => if all_have_len(cols, n as nat) {
            Ok(n as nat)
        } else {
            Err(TableError::ColumnLengthMismatchWithSpecifiedRowCount)
        },
        None => if cols.len() == 0 {
            Err(TableError::EmptyTableWithoutSpecifiedRowCount)
        } else if all_have_len(cols, cols[0].values().len()) {
            Ok(cols[0].values().len())
        } else {
            Err(TableError::ColumnLengthMismatch)
        },
    }
}

/// An ordered mapping from column identifier to column, all of one length.
#[derive(Debug, PartialEq, Eq)]
pub struct Table<'a> {
    table: IndexMap<String, Column<'a>>,
    row_count: usize,
}

impl<'a> Table<'a> {
    pub closed spec fn spec_num_rows(&self) -> nat {
        self.row_count as nat
    }

    /// The column identifiers, in order.
    pub closed spec fn column_ids(&self) -> Seq<Seq<char>> {
        self.table.keys()
    }

    /// The columns, in the order of their identifiers.
    pub closed spec fn columns(&self) -> Seq<Column<'a>> {
        self.table.values()
    }

    /// Identifiers are distinct, there is one column per identifier, and
    /// every column has the table's row count.
    pub open spec fn wf(&self) -> bool {
        &&& self.column_ids().no_duplicates()
        &&& self.column_ids().len() == self.columns().len()
        &&& all_have_len(self.columns(), self.spec_num_rows())
    }

    /// Whether two tables hold the same identifiers, types and entries.
    pub open spec fn same_content(&self, o: &Table) -> bool {
        &&& self.spec_num_rows() == o.spec_num_rows()
        &&& self.column_ids() == o.column_ids()
        &&& self.columns().len() == o.columns().len()
        &&& forall|i: int|
            0 <= i < self.columns().len() ==> (#[trigger] self.columns()[i]).values()
                == o.columns()[i].values() && self.columns()[i].spec_column_type()
                == o.columns()[i].spec_column_type()
    }

    /// Builds a table from `table`, checking that all columns agree in length
    /// with each other and with the row count the options force, if any.
    pub fn try_new_with_options(table: IndexMap<String, Column<'a>>, options: TableOptions) -> (r: Result<Table<'a>, TableError>)
        requires
            table.wf(),
        ensures
            table_outcome(table.values(), options.row_count) matches Err(e) ==> r == Err::<
                Table<'a>,
                TableError,
            >(e),
            table_outcome(table.values(), options.row_count) matches Ok(n) ==> r matches Ok(t)
                && t.wf() && t.spec_num_rows() == n && t.column_ids() == table.keys()
                && t.columns() == table.values(),
    {
        let n_cols = table.len();
        let row_count: usize = match options.row_count {
            Some(n) => n,
            None => {
                if n_cols == 0 {
                    return Err(TableError::EmptyTableWithoutSpecifiedRowCount);
                }
                table.get_index(0).1.len()
            },
        };
        let mut i: usize = 0;
        while i < n_cols
            invariant
                table.wf(),
                n_cols == table.values().len(),
                i <= n_cols,
                options.row_count matches Some(n) ==> row_count == n,
                options.row_count is None ==> n_cols > 0 && row_count
                    == table.values()[0].values().len(),
                forall|j: int| 0 <= j < i ==> #[trigger] table.values()[j].values().len() == row_count,
            decreases n_cols - i,
        {
            if table.get_index(i).1.len() != row_count {
                assert(table.values()[i as int].values().len() != row_count);
                return match options.row_count {
                    Some(_) => Err(TableError::ColumnLengthMismatchWithSpecifiedRowCount),
                    None => Err(TableError::ColumnLengthMismatch),
                };
            }
            i = i + 1;
        }
        Ok(Table { table, row_count })
    }

    /// Builds a table whose row count is that of its columns.
    pub fn try_new(table: IndexMap<String, Column<'a>>) -> (r: Result<Table<'a>, TableError>)
        requires
            table.wf(),
        ensures
            table_outcome(table.values(), None) matches Err(e) ==> r == Err::<Table<'a>, TableError>(e),
            table_outcome(table.values(), None) matches Ok(n) ==> r matches Ok(t) && t.wf()
                && t.spec_num_rows() == n && t.column_ids() == table.keys() && t.columns()
                == table.values(),
    {
        Table::try_new_with_options(table, TableOptions::new(None))
    }

    pub fn num_rows(&self) -> (r: usize)
        ensures
            r == self.spec_num_rows(),
    {
        self.row_count
    }

    pub fn num_columns(&self) -> (r: usize)
        ensures
            r == self.column_ids().len(),
    {
        self.table.len()
    }

    /// The identifier and column at position `i`.
    pub fn column(&self, i: usize) -> (r: (&String, &Column<'a>))
        requires
            i < self.column_ids().len(),
            self.wf(),
        ensures
            r.0@ == self.column_ids()[i as int],
            *r.1 == self.columns()[i as int],
    {
        self.table.get_index(i)
    }

    /// A table with the same identifiers and columns, sharing their storage.
    pub fn copy_table(&self) -> (r: Table<'a>)
        requires
            self.wf(),
        ensures
            r.wf(),
            r.spec_num_rows() == self.spec_num_rows(),
            r.column_ids() == self.column_ids(),
            r.columns() == self.columns(),
    {
        let mut m: IndexMap<String, Column<'a>> = IndexMap::new();
        let n = self.table.len();
        let mut i: usize = 0;
        while i < n
            invariant
                self.wf(),
                n == self.column_ids().len(),
                i <= n,
                m.wf(),
                m.keys() == self.column_ids().subrange(0, i as int),
                m.values() == self.columns().subrange(0, i as int),
            decreases n - i,
        {
            let (k, c) = self.table.get_index(i);
            proof {
                assert(!m.keys().contains(k@)) by {
                    if m.keys().contains(k@) {
                        let j = m.keys().index_of(k@);
                        assert(self.column_ids()[j] == self.column_ids()[i as int]);
                    }
                }
            }
            m.insert(k.clone(), *c);
            i = i + 1;
            assert(m.keys() =~= self.column_ids().subrange(0, i as int));
            assert(m.values() =~= self.columns().subrange(0, i as int));
        }
        assert(m.keys() =~= self.column_ids());
        assert(m.values() =~= self.columns());
        Table { table: m, row_count: self.row_count }
    }
}

} // verus!
