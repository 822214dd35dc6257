use bumpalo::Bump;
use proof_of_sql::builders::{FinalRoundBuilder, VerificationBuilder};
use proof_of_sql::errors::{PlaceholderError, ProofError};
use proof_of_sql::index_map::{IndexMap, IndexSet};
use proof_of_sql::literal::{ColumnType, LiteralValue};
use proof_of_sql::placeholder::PlaceholderExpr;
use proof_of_sql::refs::ColumnRef;
use proof_of_sql::scalar::{M61Scalar, Scalar};
use proof_of_sql::table::{Column, Table, TableOptions};

#[test]
fn we_cannot_create_a_placeholder_with_zero_id() {
    let res = PlaceholderExpr::try_new(0, ColumnType::Boolean);
    assert!(matches!(res, Err(PlaceholderError::ZeroPlaceholderId)));
}

#[test]
fn we_can_create_a_placeholder_from_index() {
    let placeholder = PlaceholderExpr::new_from_index(5, ColumnType::BigInt);
    assert_eq!(placeholder.index(), 5);
    assert_eq!(placeholder.column_type(), ColumnType::BigInt);
}

#[test]
fn we_cannot_interpolate_placeholder_if_id_is_out_of_bounds() {
    // Empty params
    let placeholder_expr = PlaceholderExpr::try_new(1, ColumnType::Boolean).unwrap();
    let params: Vec<LiteralValue> = vec![];
    let res = placeholder_expr.interpolate(&params);
    assert!(matches!(
        res,
        Err(PlaceholderError::InvalidPlaceholderIndex { .. })
    ));

    // Params exist but not enough of them
    let placeholder_expr = PlaceholderExpr::try_new(3, ColumnType::Boolean).unwrap();
    let params = vec![LiteralValue::Boolean(true), LiteralValue::Boolean(false)];
    let res = placeholder_expr.interpolate(&params);
    assert!(matches!(
        res,
        Err(PlaceholderError::InvalidPlaceholderIndex { .. })
    ));
}

#[test]
fn we_cannot_interpolate_placeholder_if_types_do_not_match() {
    let placeholder_expr = PlaceholderExpr::try_new(1, ColumnType::Boolean).unwrap();
    let params = vec![LiteralValue::BigInt(123)];
    let res = placeholder_expr.interpolate(&params);
    assert!(matches!(
        res,
        Err(PlaceholderError::InvalidPlaceholderType { .. })
    ));
}

#[test]
fn we_can_interpolate_placeholder_if_id_is_in_bounds_and_types_match() {
    let placeholder_expr = PlaceholderExpr::try_new(1, ColumnType::Boolean).unwrap();
    let params = vec![LiteralValue::Boolean(true)];
    let res = placeholder_expr.interpolate(&params);
    assert_eq!(res.unwrap(), &LiteralValue::Boolean(true));
}

#[test]
fn one_based_id_is_stored_as_zero_based_index() {
    let p = PlaceholderExpr::try_new(7, ColumnType::Int).unwrap();
    assert_eq!(p.index(), 6);
    assert_eq!(p.column_type(), ColumnType::Int);
    assert_eq!(p.data_type(), ColumnType::Int);
}

#[test]
fn index_error_names_index_and_parameter_count() {
    let p = PlaceholderExpr::try_new(3, ColumnType::Boolean).unwrap();
    let params = vec![LiteralValue::Boolean(true), LiteralValue::Boolean(false)];
    assert_eq!(
        p.interpolate(&params),
        Err(PlaceholderError::InvalidPlaceholderIndex { index: 2, num_params: 2 })
    );
    let q = PlaceholderExpr::try_new(2, ColumnType::Boolean).unwrap();
    assert!(q.interpolate(&params).is_ok());
}

#[test]
fn type_error_names_index_and_both_types() {
    let p = PlaceholderExpr::try_new(2, ColumnType::SmallInt).unwrap();
    let params = vec![LiteralValue::SmallInt(1), LiteralValue::Int(5)];
    assert_eq!(
        p.interpolate(&params),
        Err(PlaceholderError::InvalidPlaceholderType {
            index: 1,
            expected: ColumnType::SmallInt,
            actual: ColumnType::Int,
        })
    );
}

#[test]
fn matching_parameter_is_returned_unchanged() {
    let p = PlaceholderExpr::try_new(2, ColumnType::BigInt).unwrap();
    let params = vec![LiteralValue::Boolean(false), LiteralValue::BigInt(-42)];
    assert_eq!(p.interpolate(&params), Ok(&LiteralValue::BigInt(-42)));
}

fn four_row_table() -> Table<'static> {
    Table::try_new_with_options(IndexMap::new(), TableOptions::new(Some(4))).unwrap()
}

#[test]
fn boolean_placeholder_over_four_rows() {
    let alloc = Bump::new();
    let table = four_row_table();
    let p = PlaceholderExpr::try_new(1, ColumnType::Boolean).unwrap();
    let params = vec![LiteralValue::Boolean(true)];

    let first = p.first_round_evaluate(&alloc, &table, &params).unwrap();
    assert_eq!(first, Column::Boolean(&[true, true, true, true]));

    let mut builder: FinalRoundBuilder<M61Scalar> = FinalRoundBuilder::new(vec![]);
    let last = p
        .final_round_evaluate(&mut builder, &alloc, &table, &params)
        .unwrap();
    assert_eq!(last, first);

    let chi_eval = M61Scalar::from_i128(12345);
    let mut vb = VerificationBuilder::new(M61Scalar::from_i128(1));
    let accessor: IndexMap<String, M61Scalar> = IndexMap::new();
    let v = p.verifier_evaluate(&mut vb, &accessor, chi_eval, &params).unwrap();
    let one = M61Scalar::from_literal(&LiteralValue::Boolean(true));
    assert_eq!(v, chi_eval.field_mul(one));
    assert_eq!(v, chi_eval);
}

#[test]
fn integer_placeholder_evaluates_to_value_times_chi() {
    let p = PlaceholderExpr::try_new(1, ColumnType::BigInt).unwrap();
    let params = vec![LiteralValue::BigInt(3)];
    let mut vb = VerificationBuilder::new(M61Scalar::from_i128(1));
    let accessor: IndexMap<String, M61Scalar> = IndexMap::new();
    let v = p
        .verifier_evaluate(&mut vb, &accessor, M61Scalar::from_i128(5), &params)
        .unwrap();
    assert_eq!(v.value(), 15);
}

#[test]
fn placeholder_errors_reach_every_evaluation() {
    let alloc = Bump::new();
    let table = four_row_table();
    let p = PlaceholderExpr::try_new(1, ColumnType::Boolean).unwrap();
    let params = vec![LiteralValue::TinyInt(1)];
    let expected = PlaceholderError::InvalidPlaceholderType {
        index: 0,
        expected: ColumnType::Boolean,
        actual: ColumnType::TinyInt,
    };
    assert_eq!(p.first_round_evaluate(&alloc, &table, &params), Err(expected));
    let mut builder: FinalRoundBuilder<M61Scalar> = FinalRoundBuilder::new(vec![]);
    assert_eq!(
        p.final_round_evaluate(&mut builder, &alloc, &table, &params),
        Err(expected)
    );
    let mut vb = VerificationBuilder::new(M61Scalar::from_i128(1));
    let accessor: IndexMap<String, M61Scalar> = IndexMap::new();
    assert_eq!(
        p.verifier_evaluate(&mut vb, &accessor, M61Scalar::from_i128(2), &params),
        Err(ProofError::Placeholder { source: expected })
    );
}

#[test]
fn placeholder_reads_no_column() {
    let p = PlaceholderExpr::try_new(1, ColumnType::Boolean).unwrap();
    let mut set: IndexSet<ColumnRef> = IndexSet::new();
    p.get_column_references(&mut set);
    assert_eq!(set.len(), 0);
}
