use bumpalo::Bump;
use proof_of_sql::builders::{FinalRoundBuilder, FirstRoundBuilder};
use proof_of_sql::evaluation::TableEvaluation;
use proof_of_sql::index_map::{IndexMap, IndexSet};
use proof_of_sql::literal::{ColumnType, LiteralValue};
use proof_of_sql::refs::TableRef;
use proof_of_sql::scalar::{M61Scalar, Scalar, M61_MODULUS};
use proof_of_sql::table::{Column, Table, TableError, TableOptions};

#[test]
fn literal_types() {
    assert_eq!(LiteralValue::Boolean(false).column_type(), ColumnType::Boolean);
    assert_eq!(LiteralValue::TinyInt(1).column_type(), ColumnType::TinyInt);
    assert_eq!(LiteralValue::SmallInt(1).column_type(), ColumnType::SmallInt);
    assert_eq!(LiteralValue::Int(1).column_type(), ColumnType::Int);
    assert_eq!(LiteralValue::BigInt(1).column_type(), ColumnType::BigInt);
}

#[test]
fn literal_encodings() {
    assert_eq!(M61Scalar::from_literal(&LiteralValue::Boolean(true)).value(), 1);
    assert_eq!(M61Scalar::from_literal(&LiteralValue::Boolean(false)).value(), 0);
    assert_eq!(M61Scalar::from_literal(&LiteralValue::TinyInt(-1)).value(), M61_MODULUS - 1);
    assert_eq!(M61Scalar::from_literal(&LiteralValue::BigInt(123)).value(), 123);
    assert_eq!(LiteralValue::SmallInt(-2).to_scalar::<M61Scalar>().value(), M61_MODULUS - 2);
    assert_eq!(
        M61Scalar::from_literal(&LiteralValue::BigInt(M61_MODULUS as i64 + 5)).value(),
        5
    );
}

#[test]
fn field_arithmetic() {
    let a = M61Scalar::from_i128(M61_MODULUS as i128 - 1);
    let b = M61Scalar::from_i128(2);
    assert_eq!(a.field_add(b).value(), 1);
    assert_eq!(a.field_mul(b).value(), M61_MODULUS - 2);
    assert_eq!(b.field_mul(M61Scalar::from_i128(21)).value(), 42);
}

#[test]
fn column_from_literal_repeats_the_value() {
    let alloc = Bump::new();
    let c = Column::from_literal_with_length(&LiteralValue::BigInt(-7), 3, &alloc);
    assert_eq!(c, Column::BigInt(&[-7, -7, -7]));
    assert_eq!(c.len(), 3);
    assert_eq!(c.column_type(), ColumnType::BigInt);
    let e = Column::from_literal_with_length(&LiteralValue::TinyInt(2), 0, &alloc);
    assert_eq!(e.len(), 0);
    assert_eq!(e.column_type(), ColumnType::TinyInt);
}

#[test]
fn table_errors() {
    let empty: IndexMap<String, Column> = IndexMap::new();
    assert_eq!(Table::try_new(empty), Err(TableError::EmptyTableWithoutSpecifiedRowCount));

    let mut m = IndexMap::new();
    m.insert("a".to_string(), Column::Int(&[1, 2]));
    m.insert("b".to_string(), Column::Boolean(&[true]));
    assert_eq!(Table::try_new(m), Err(TableError::ColumnLengthMismatch));

    let mut m = IndexMap::new();
    m.insert("a".to_string(), Column::Int(&[1, 2]));
    assert_eq!(
        Table::try_new_with_options(m, TableOptions::new(Some(3))),
        Err(TableError::ColumnLengthMismatchWithSpecifiedRowCount)
    );
}

#[test]
fn table_from_columns() {
    let mut m = IndexMap::new();
    m.insert("a".to_string(), Column::Int(&[1, 2]));
    m.insert("b".to_string(), Column::Boolean(&[true, false]));
    let t = Table::try_new(m).unwrap();
    assert_eq!(t.num_rows(), 2);
    assert_eq!(t.num_columns(), 2);
    let (id, col) = t.column(1);
    assert_eq!(id, "b");
    assert_eq!(*col, Column::Boolean(&[true, false]));
    assert_eq!(t.copy_table(), t);
}

#[test]
fn index_map_keeps_insertion_order() {
    let mut m = IndexMap::new();
    m.insert("z".to_string(), 1u64);
    m.insert("a".to_string(), 2u64);
    m.insert("z".to_string(), 3u64);
    assert_eq!(m.len(), 2);
    assert_eq!(m.get_index(0), (&"z".to_string(), &3u64));
    assert_eq!(m.get_index(1), (&"a".to_string(), &2u64));
    assert_eq!(m.get(&"a".to_string()), Some(&2u64));
    assert_eq!(m.get(&"q".to_string()), None);
    assert_eq!(m.get_index_of(&"a".to_string()), Some(1));
}

#[test]
fn index_set_ignores_repeats() {
    let mut s = IndexSet::new();
    assert!(s.insert(TableRef::new("n".to_string(), "t".to_string())));
    assert!(!s.insert(TableRef::new("n".to_string(), "t".to_string())));
    assert!(s.insert(TableRef::new("n".to_string(), "u".to_string())));
    assert_eq!(s.len(), 2);
}

#[test]
fn table_evaluation_accessors() {
    let e = TableEvaluation::new(
        vec![M61Scalar::from_i128(1), M61Scalar::from_i128(2)],
        (M61Scalar::from_i128(3), 5),
    );
    assert_eq!(e.column_evals(), &[M61Scalar::from_i128(1), M61Scalar::from_i128(2)]);
    assert_eq!(e.chi_eval(), M61Scalar::from_i128(3));
    assert_eq!(e.chi(), (M61Scalar::from_i128(3), 5));
}

#[test]
fn builders_collect_columns() {
    let mut first = FirstRoundBuilder::new();
    first.produce_intermediate_column(Column::Int(&[1]));
    let mut last = FinalRoundBuilder::new(vec![M61Scalar::from_i128(4)]);
    last.produce_witness_column(Column::Int(&[2]));
    assert_eq!(first.intermediate_columns(), &[Column::Int(&[1])]);
    assert_eq!(last.witness_columns(), &[Column::Int(&[2])]);
    assert_eq!(last.challenges(), &[M61Scalar::from_i128(4)]);
}
