use cardinality::cardinality::{
    cardinality_inner, generic_list_cardinality, generic_map_cardinality, Cardinality,
    CardinalityError,
};
use cardinality::dims::{compute_array_dims, dims_product};
use cardinality::layout::{Child, Column, ListLayout, MapLayout, Offsets};

fn list(offsets: Vec<i32>, validity: Vec<bool>, values: Child) -> ListLayout {
    ListLayout { offsets: Offsets::Small(offsets), validity, values: Box::new(values) }
}

fn large_list(offsets: Vec<i64>, validity: Vec<bool>, values: Child) -> ListLayout {
    ListLayout { offsets: Offsets::Large(offsets), validity, values: Box::new(values) }
}

fn run(column: Column) -> Result<Vec<Option<u64>>, CardinalityError> {
    assert!(column.is_well_formed());
    cardinality_inner(&[column])
}

// [[1, 2, 3, 4], [5, 6, 7, 8]]
fn two_by_four() -> ListLayout {
    list(vec![0, 2], vec![true], Child::List(list(vec![0, 4, 8], vec![true, true], Child::Leaf(8))))
}

#[test]
fn rectangular_two_by_four_gives_eight() {
    assert_eq!(run(Column::List(two_by_four())), Ok(vec![Some(8)]));
}

#[test]
fn flat_rows_give_their_lengths_and_nulls_stay_null() {
    // [1, 2, 3], null, [], [4]
    let l = list(vec![0, 3, 3, 3, 4], vec![true, false, true, true], Child::Leaf(4));
    assert_eq!(run(Column::List(l)), Ok(vec![Some(3), None, Some(0), Some(1)]));
}

#[test]
fn large_offsets_give_the_same_results() {
    let l = large_list(vec![0, 3, 3, 3, 4], vec![true, false, true, true], Child::Leaf(4));
    assert_eq!(run(Column::List(l)), Ok(vec![Some(3), None, Some(0), Some(1)]));
    let nested = large_list(
        vec![0, 2],
        vec![true],
        Child::List(list(vec![0, 4, 8], vec![true, true], Child::Leaf(8))),
    );
    assert_eq!(run(Column::List(nested)), Ok(vec![Some(8)]));
}

#[test]
fn three_levels_multiply_all_sizes() {
    // [[[1, 2], [3, 4]], [[5, 6], [7, 8]], [[9, 10], [11, 12]]]
    let inner = list(vec![0, 2, 4, 6, 8, 10, 12], vec![true; 6], Child::Leaf(12));
    let middle = list(vec![0, 2, 4, 6], vec![true; 3], Child::List(inner));
    let outer = list(vec![0, 3], vec![true], Child::List(middle));
    assert_eq!(run(Column::List(outer)), Ok(vec![Some(12)]));
}

#[test]
fn empty_row_of_nested_type_gives_zero() {
    // [], [[1]]
    let l = list(vec![0, 0, 1], vec![true, true], Child::List(list(vec![0, 1], vec![true], Child::Leaf(1))));
    assert_eq!(run(Column::List(l)), Ok(vec![Some(0), Some(1)]));
}

#[test]
fn empty_first_sub_list_gives_zero() {
    // [[], [1]]
    let l = list(vec![0, 2], vec![true], Child::List(list(vec![0, 0, 1], vec![true, true], Child::Leaf(1))));
    assert_eq!(run(Column::List(l)), Ok(vec![Some(0)]));
}

#[test]
fn row_shape_is_read_from_its_first_element() {
    // [[1, 2], [3, 4, 5]]: the first sub-list gives the second dimension
    let l = list(vec![0, 2], vec![true], Child::List(list(vec![0, 2, 5], vec![true, true], Child::Leaf(5))));
    assert_eq!(run(Column::List(l)), Ok(vec![Some(4)]));
}

#[test]
fn rows_of_different_shapes_in_one_column() {
    // [[1, 2], [3, 4]], null, [[5, 6, 7]]
    let inner = list(vec![0, 2, 4, 7], vec![true; 3], Child::Leaf(7));
    let l = list(vec![0, 2, 2, 3], vec![true, false, true], Child::List(inner));
    assert_eq!(generic_list_cardinality(&l), vec![Some(4), None, Some(3)]);
}

#[test]
fn offsets_need_not_start_at_zero() {
    // a slice of a larger column: rows own elements 5..7 and 7..10
    let l = list(vec![5, 7, 10], vec![true, true], Child::Leaf(12));
    assert_eq!(run(Column::List(l)), Ok(vec![Some(2), Some(3)]));
}

#[test]
fn map_rows_give_their_entry_counts() {
    // {a: 1, b: 2}, null, {}, {c: 3}
    let m = MapLayout { offsets: vec![0, 2, 2, 2, 3], validity: vec![true, false, true, true], entries: 3 };
    assert!(m.is_well_formed());
    assert_eq!(run(Column::Mapping(m)), Ok(vec![Some(2), None, Some(0), Some(1)]));
}

#[test]
fn map_column_of_null_rows_only() {
    let m = MapLayout { offsets: vec![0, 0, 0], validity: vec![false, false], entries: 0 };
    assert_eq!(generic_map_cardinality(&m), vec![None, None]);
}

#[test]
fn absent_column_gives_zero_for_every_row() {
    assert_eq!(run(Column::Absent(3)), Ok(vec![Some(0), Some(0), Some(0)]));
}

#[test]
fn empty_absent_column_gives_empty_result() {
    assert_eq!(run(Column::Absent(0)), Ok(vec![]));
}

#[test]
fn empty_list_column_gives_empty_result() {
    let l = list(vec![0], vec![], Child::Leaf(0));
    assert_eq!(run(Column::List(l)), Ok(vec![]));
}

#[test]
fn other_type_is_unsupported() {
    assert_eq!(
        run(Column::Other("Int64".to_string())),
        Err(CardinalityError::UnsupportedType("Int64".to_string()))
    );
}

#[test]
fn no_argument_is_an_argument_count_error() {
    assert_eq!(cardinality_inner(&[]), Err(CardinalityError::InvalidArgumentCount(0)));
}

#[test]
fn two_arguments_fail_before_their_types_are_read() {
    let args = [Column::Other("Utf8".to_string()), Column::Absent(1)];
    assert_eq!(cardinality_inner(&args), Err(CardinalityError::InvalidArgumentCount(2)));
}

#[test]
fn same_column_twice_gives_same_result() {
    let args = [Column::List(two_by_four())];
    let first = cardinality_inner(&args);
    let second = cardinality_inner(&args);
    assert_eq!(first, second);
    assert_eq!(first, Ok(vec![Some(8)]));
}

#[test]
fn dimension_vector_of_each_row() {
    let inner = list(vec![0, 2, 4, 6, 8, 10, 12], vec![true; 6], Child::Leaf(12));
    let middle = list(vec![0, 2, 4, 6], vec![true; 3], Child::List(inner));
    let outer = list(vec![0, 3, 3], vec![true, false], Child::List(middle));
    assert_eq!(compute_array_dims(&outer, 0), Some(vec![3, 2, 2]));
    assert_eq!(compute_array_dims(&outer, 1), None);
}

#[test]
fn product_of_dimensions() {
    assert_eq!(dims_product(&vec![2, 3, 4]), 24);
    assert_eq!(dims_product(&vec![5, 0, 7]), 0);
    assert_eq!(dims_product(&vec![]), 1);
}

#[test]
fn product_wraps_around_at_two_to_the_64() {
    assert_eq!(dims_product(&vec![1 << 32, 1 << 32]), 0);
    assert_eq!(dims_product(&vec![(1 << 32) + 1, (1 << 32) + 1]), (1 << 33) + 1);
}

#[test]
fn malformed_layouts_are_detected() {
    // offsets out of order
    assert!(!list(vec![0, 3, 2], vec![true, true], Child::Leaf(3)).is_well_formed());
    // offsets past the child
    assert!(!list(vec![0, 4], vec![true], Child::Leaf(3)).is_well_formed());
    // one offset too few
    assert!(!list(vec![0], vec![true], Child::Leaf(0)).is_well_formed());
    // negative offset
    assert!(!large_list(vec![-1, 0], vec![true], Child::Leaf(1)).is_well_formed());
    // a malformed nested level
    let bad = list(vec![0, 1], vec![true], Child::List(list(vec![0, 2], vec![true], Child::Leaf(1))));
    assert!(!Column::List(bad).is_well_formed());
    let m = MapLayout { offsets: vec![0, 2], validity: vec![true], entries: 1 };
    assert!(!Column::Mapping(m).is_well_formed());
    assert!(Column::List(two_by_four()).is_well_formed());
}

#[test]
fn function_name_and_aliases() {
    let f = Cardinality::new();
    assert_eq!(f.name(), "cardinality");
    assert!(f.aliases().is_empty());
    assert!(Cardinality::default().aliases().is_empty());
    assert_eq!(f.invoke_with_args(&[Column::List(two_by_four())]), Ok(vec![Some(8)]));
}
