//! Properties of the cardinality that hold for all inputs, proved from the
//! specification functions that the executable functions are held to.
use vstd::prelude::*;

use crate::cardinality::{
    CardinalityError, cardinality_of, column_cardinality, list_row_cardinality,
    map_row_cardinality,
};
use crate::dims::{dims_from, modulus, product, row_dims};
use crate::layout::{Child, Column, ListLayout, MapLayout};

verus! {

/// Number of rows of a column of a supported type.
pub open spec fn column_rows(c: Column) -> int {
    match c {
        Column::Absent(n) => n as int,
        Column::List(l) => l.rows(),
        Column::Mapping(m) => m.rows(),
        Column::Other(_) => 0,
    }
}

/// Result for row `i` of a column of a supported type, from that row alone.
pub open spec fn row_cardinality(c: Column, i: int) -> Option<u64> {
    match c {
        Column::Absent(_) => Some(0u64),
        Column::List(l) => list_row_cardinality(l, i),
        Column::Mapping(m) => map_row_cardinality(m, i),
        Column::Other(_) => None,
    }
}

/// The elements `start .. start + len` of `values` form a list of the
/// rectangular shape `shape`: it has `shape[0]` elements, and where they are
/// lists, each of them has the shape `shape` without its first entry.
pub open spec fn is_rectangular(values: Child, start: int, len: int, shape: Seq<int>) -> bool
    decreases values,
{
    &&& 0 <= len
    &&& shape.len() >= 1
    &&& shape[0] == len
    &&& match values {
        Child::Leaf(_) => shape.len() == 1,
        Child::List(l) => if len == 0 {
            shape.len() == 1
        } else {
            forall|j: int|
                0 <= j < len ==> is_rectangular(
                    *l.values,
                    #[trigger] l.offsets@[start + j],
                    l.row_len(start + j),
                    shape.drop_first(),
                )
        },
    }
}

/// The result has one row per input row, and row `i` of the result is the
/// cardinality of row `i` of the input.
pub proof fn lemma_one_result_per_row(c: Column)
    requires
        !(c is Other),
    ensures
        column_cardinality(c) matches Ok(v) && v.len() == column_rows(c) && forall|i: int|
            0 <= i < v.len() ==> v[i] == row_cardinality(c, i),
{
}

/// A null row of a list or map column gives a null result.
pub proof fn lemma_null_row_gives_null(c: Column, i: int)
    requires
        c is List || c is Mapping,
        0 <= i < column_rows(c),
        match c {
            Column::List(l) => !l.validity@[i],
            Column::Mapping(m) => !m.validity@[i],
            _ => false,
        },
    ensures
        column_cardinality(c) matches Ok(v) && v[i] is None,
{
}

/// Every row of an untyped column gives 0, and an empty one gives an empty
/// result.
pub proof fn lemma_absent_column_gives_zeros(n: usize)
    ensures
        column_cardinality(Column::Absent(n)) matches Ok(v) && v.len() == n && forall|i: int|
            0 <= i < n ==> v[i] == Some(0u64),
{
}

/// A present list row of `K` elements that are not lists gives `K`.
pub proof fn lemma_flat_row_gives_its_length(l: ListLayout, i: int)
    requires
        l.wf(),
        0 <= i < l.rows(),
        l.validity@[i],
        l.values.wf() && *l.values is Leaf,
    ensures
        column_cardinality(Column::List(l)) matches Ok(v) && v[i] == Some(l.row_len(i) as u64),
        l.row_len(i) as u64 == l.row_len(i),
{
    let k = l.row_len(i);
    assert(row_dims(l, i) == seq![k]);
    assert(seq![k].drop_first() =~= Seq::<int>::empty());
    assert(seq![k][0] == k);
    assert(product(Seq::<int>::empty()) == 1);
    assert(product(seq![k]) == k * product(seq![k].drop_first()));
}

/// A list whose elements form the rectangular shape `shape` has `shape` as
/// its dimension vector.
pub proof fn lemma_rectangular_dims(values: Child, start: int, len: int, shape: Seq<int>)
    requires
        is_rectangular(values, start, len, shape),
    ensures
        dims_from(values, start, len) == shape,
    decreases values,
{
    match values {
        Child::Leaf(_) => {
            assert(shape =~= seq![len]);
        },
        Child::List(l) => {
            if len == 0 {
                assert(shape =~= seq![len]);
            } else {
                let rest = shape.drop_first();
                assert(forall|j: int|
                    0 <= j < len ==> is_rectangular(
                        *l.values,
                        #[trigger] l.offsets@[start + j],
                        l.row_len(start + j),
                        rest,
                    ));
                assert(start + 0 == start);
                assert(is_rectangular(*l.values, l.offsets@[start + 0], l.row_len(start + 0), rest));
                lemma_rectangular_dims(
                    *l.values,
                    l.offsets@[start],
                    l.row_len(start),
                    shape.drop_first(),
                );
                assert(shape =~= seq![len] + shape.drop_first());
            }
        },
    }
}

/// A present list row of the rectangular shape `[d0, d1, ...]` gives
/// `d0 * d1 * ...`, wrapping around at 2^64.
pub proof fn lemma_rectangular_row_gives_product(l: ListLayout, i: int, shape: Seq<int>)
    requires
        l.wf(),
        0 <= i < l.rows(),
        l.validity@[i],
        is_rectangular(*l.values, l.offsets@[i], l.row_len(i), shape),
    ensures
        column_cardinality(Column::List(l)) matches Ok(v) && v[i] == Some(
            (product(shape) % modulus()) as u64,
        ),
{
    lemma_rectangular_dims(*l.values, l.offsets@[i], l.row_len(i), shape);
}

/// A present list row without elements gives 0, whatever its element type.
pub proof fn lemma_empty_row_gives_zero(l: ListLayout, i: int)
    requires
        l.wf(),
        0 <= i < l.rows(),
        l.validity@[i],
        l.row_len(i) == 0,
    ensures
        column_cardinality(Column::List(l)) matches Ok(v) && v[i] == Some(0u64),
{
    assert(row_dims(l, i) == seq![0int]);
    assert(seq![0int].drop_first() =~= Seq::<int>::empty());
    assert(seq![0int][0] == 0);
    assert(product(Seq::<int>::empty()) == 1);
    assert(product(seq![0int]) == 0 * product(seq![0int].drop_first()));
}

/// A present map row of `M` entries gives `M`.
pub proof fn lemma_map_row_gives_entry_count(m: MapLayout, i: int)
    requires
        m.wf(),
        0 <= i < m.rows(),
        m.validity@[i],
    ensures
        column_cardinality(Column::Mapping(m)) matches Ok(v) && v[i] == Some(
            m.entry_count(i) as u64,
        ),
        m.entry_count(i) as u64 == m.entry_count(i),
{
    assert(0 <= m.offsets@[i] <= m.offsets@[i + 1] <= m.entries);
}

/// A column of any other declared type fails with that type's name, and no
/// result column.
pub proof fn lemma_other_type_is_unsupported(t: String)
    ensures
        cardinality_of(seq![Column::Other(t)]) == Err::<Seq<Option<u64>>, _>(
            CardinalityError::UnsupportedType(t),
        ),
{
}

/// Any number of arguments but one fails with that number, whatever the
/// arguments' types.
pub proof fn lemma_wrong_argument_count(args: Seq<Column>)
    requires
        args.len() != 1,
        args.len() <= usize::MAX,
    ensures
        cardinality_of(args) == Err::<Seq<Option<u64>>, _>(
            CardinalityError::InvalidArgumentCount(args.len() as usize),
        ),
{
}

/// The result depends on the arguments alone: two calls on the same column
/// give the same result.
pub proof fn lemma_same_input_same_result(first: Seq<Column>, second: Seq<Column>)
    requires
        first == second,
    ensures
        cardinality_of(first) == cardinality_of(second),
{
}

} // verus!
