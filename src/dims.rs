//! Dimension vectors of list rows, and their products.
use vstd::prelude::*;
use vstd::arithmetic::div_mod::lemma_mul_mod_noop_right;

use crate::layout::{Child, ListLayout};

verus! {

/// 2^64: results wrap around at this modulus.
pub open spec fn modulus() -> int {
    0x1_0000_0000_0000_0000
}

/// The dimension vector of a list whose `len` elements start at position
/// `start` of `values`: its own length, then, while its elements are lists
/// and it has any, the dimension vector of its first element.
///
/// Every entry is a count: validity is read at the outer level only. A null
/// element at a nested level counts the elements that its offsets give it
/// (none, as Arrow writes a null list element), so it is never an error and
/// never a missing entry.
pub open spec fn dims_from(values: Child, start: int, len: int) -> Seq<int>
    decreases values,
{
    match values {
        Child::Leaf(_) => seq![len],
        Child::List(l) => if len == 0 {
            seq![len]
        } else {
            seq![len] + dims_from(*l.values, l.offsets@[start], l.row_len(start))
        },
    }
}

/// The dimension vector of row `i` of a list layout.
pub open spec fn row_dims(l: ListLayout, i: int) -> Seq<int> {
    dims_from(*l.values, l.offsets@[i], l.row_len(i))
}

/// The product of a sequence of numbers (1 for the empty one).
pub open spec fn product(s: Seq<int>) -> int
    decreases s.len(),
{
    if s.len() == 0 {
        1
    } else {
        s[0] * product(s.drop_first())
    }
}

/// The numbers of a vector, as integers.
pub open spec fn as_ints(v: Seq<u64>) -> Seq<int> {
    v.map_values(|x: u64| x as int)
}

/// Dimension vector of row `row`: `None` where the row is null.
pub fn compute_array_dims(array: &ListLayout, row: usize) -> (r: Option<Vec<u64>>)
    requires
        array.wf(),
        row < array.rows(),
    ensures
        r is None <==> !array.validity@[row as int],
        r matches Some(d) ==> as_ints(d@) == row_dims(*array, row as int),
{
    if !array.is_valid(row) {
        return None;
    }
    let (first, last) = array.row_range(row);
    let mut out: Vec<u64> = Vec::new();
    let mut values: &Child = &array.values;
    let mut start: usize = first;
    let mut len: usize = last - first;
    loop
        invariant_except_break
            as_ints(out@) + dims_from(*values, start as int, len as int) == row_dims(
                *array,
                row as int,
            ),
        invariant
            values.wf(),
            start + len <= values.len_spec(),
        ensures
            as_ints(out@) == row_dims(*array, row as int),
        decreases values,
    {
        let ghost before = out@;
        out.push(len as u64);
        proof {
            assert(as_ints(out@) =~= as_ints(before) + seq![len as int]);
        }
        match values {
            Child::Leaf(_) => {
                assert(dims_from(*values, start as int, len as int) == seq![len as int]);
                break;
            },
            Child::List(l) => {
                if len == 0 {
                    assert(dims_from(*values, start as int, len as int) == seq![len as int]);
                    break;
                }
                let (s, e) = l.row_range(start);
                proof {
                    assert(dims_from(*values, start as int, len as int) =~= seq![len as int]
                        + dims_from(*l.values, s as int, (e - s) as int));
                }
                values = &l.values;
                start = s;
                len = e - s;
            },
        }
    }
    Some(out)
}

/// Product of a dimension vector, wrapping around at 2^64.
pub fn dims_product(dims: &Vec<u64>) -> (r: u64)
    ensures
        r as int == product(as_ints(dims@)) % modulus(),
{
    let ghost all = as_ints(dims@);
    let mut acc: u64 = 1;
    let mut k: usize = dims.len();
    proof {
        assert(all.subrange(k as int, all.len() as int) =~= Seq::<int>::empty());
    }
    while k > 0
        invariant
            k <= dims@.len(),
            all == as_ints(dims@),
            acc as int == product(all.subrange(k as int, all.len() as int)) % modulus(),
        decreases k,
    {
        k = k - 1;
        proof {
            let s = all.subrange(k as int, all.len() as int);
            let rest = all.subrange(k + 1, all.len() as int);
            assert(s.drop_first() =~= rest);
            lemma_mul_mod_noop_right(dims@[k as int] as int, product(rest), modulus());
        }
        acc = dims[k].wrapping_mul(acc);
    }
    proof {
        assert(all.subrange(0, all.len() as int) =~= all);
    }
    acc
}

} // verus!
