//! The cardinality of each row of a column, by the column's declared type.
use vstd::prelude::*;

use crate::dims::{compute_array_dims, dims_product, modulus, product, row_dims};
use crate::layout::{Column, ListLayout, MapLayout};

verus! {

/// Why no result column was produced.
#[derive(Debug, PartialEq, Eq)]
pub enum CardinalityError {
    /// The call was given this many arguments instead of one.
    InvalidArgumentCount(usize),
    /// The column's declared type, by name, has no cardinality.
    UnsupportedType(String),
}

/// Cardinality of row `i` of a list column: the product of its dimension
/// vector, wrapping around at 2^64, or null for a null row.
pub open spec fn list_row_cardinality(l: ListLayout, i: int) -> Option<u64> {
    if l.validity@[i] {
        Some((product(row_dims(l, i)) % modulus()) as u64)
    } else {
        None
    }
}

/// Cardinality of row `i` of a map column: its number of entries, or null
/// for a null row.
pub open spec fn map_row_cardinality(m: MapLayout, i: int) -> Option<u64> {
    if m.validity@[i] {
        Some(m.entry_count(i) as u64)
    } else {
        None
    }
}

/// Result column of one column, row by row, or the error for its type.
pub open spec fn column_cardinality(c: Column) -> Result<Seq<Option<u64>>, CardinalityError> {
    match c {
        Column::Absent(n) => Ok(Seq::new(n as nat, |i: int| Some(0u64))),
        Column::List(l) => Ok(Seq::new(l.rows() as nat, |i: int| list_row_cardinality(l, i))),
        Column::Mapping(m) => Ok(Seq::new(m.rows() as nat, |i: int| map_row_cardinality(m, i))),
        Column::Other(t) => Err(CardinalityError::UnsupportedType(t)),
    }
}

/// Result of a call with the arguments `args`: exactly one is expected.
pub open spec fn cardinality_of(args: Seq<Column>) -> Result<Seq<Option<u64>>, CardinalityError> {
    if args.len() != 1 {
        Err(CardinalityError::InvalidArgumentCount(args.len() as usize))
    } else {
        column_cardinality(args[0])
    }
}

/// Cardinality of every row of a list column.
pub fn generic_list_cardinality(array: &ListLayout) -> (r: Vec<Option<u64>>)
    requires
        array.wf(),
    ensures
        r@ == Seq::new(array.rows() as nat, |i: int| list_row_cardinality(*array, i)),
{
    let n = array.len();
    let mut out: Vec<Option<u64>> = Vec::new();
    let mut i: usize = 0;
    while i < n
        invariant
            i <= n,
            n == array.rows(),
            array.wf(),
            out@.len() == i,
            forall|j: int| 0 <= j < i ==> out@[j] == list_row_cardinality(*array, j),
        decreases n - i,
    {
        let c = match compute_array_dims(array, i) {
            Some(d) => Some(dims_product(&d)),
            None => None,
        };
        out.push(c);
        i = i + 1;
    }
    assert(out@ =~= Seq::new(array.rows() as nat, |i: int| list_row_cardinality(*array, i)));
    out
}

/// Cardinality of every row of a map column.
pub fn generic_map_cardinality(array: &MapLayout) -> (r: Vec<Option<u64>>)
    requires
        array.wf(),
    ensures
        r@ == Seq::new(array.rows() as nat, |i: int| map_row_cardinality(*array, i)),
{
    let n = array.len();
    let mut out: Vec<Option<u64>> = Vec::new();
    let mut i: usize = 0;
    while i < n
        invariant
            i <= n,
            n == array.rows(),
            array.wf(),
            out@.len() == i,
            forall|j: int| 0 <= j < i ==> out@[j] == map_row_cardinality(*array, j),
        decreases n - i,
    {
        let c = if array.is_valid(i) {
            Some(array.row_entries(i) as u64)
        } else {
            None
        };
        out.push(c);
        i = i + 1;
    }
    assert(out@ =~= Seq::new(array.rows() as nat, |i: int| map_row_cardinality(*array, i)));
    out
}

/// Cardinality of every row of the one column in `args`.
pub fn cardinality_inner(args: &[Column]) -> (r: Result<Vec<Option<u64>>, CardinalityError>)
    requires
        args@.len() == 1 ==> args@[0].wf(),
    ensures
        match r {
            Ok(v) => cardinality_of(args@) == Ok::<_, CardinalityError>(v@),
            Err(e) => cardinality_of(args@) == Err::<Seq<Option<u64>>, _>(e),
        },
{
    if args.len() != 1 {
        return Err(CardinalityError::InvalidArgumentCount(args.len()));
    }
    let array = &args[0];
    assert(array.wf());
    match array {
        Column::Absent(n) => {
            let mut out: Vec<Option<u64>> = Vec::new();
            let mut i: usize = 0;
            while i < *n
                invariant
                    i <= *n,
                    out@.len() == i,
                    forall|j: int| 0 <= j < i ==> out@[j] == Some(0u64),
                decreases *n - i,
            {
                out.push(Some(0));
                i = i + 1;
            }
            assert(out@ =~= Seq::new(*n as nat, |i: int| Some(0u64)));
            Ok(out)
        },
        Column::List(l) => Ok(generic_list_cardinality(l)),
        Column::Mapping(m) => Ok(generic_map_cardinality(m)),
        Column::Other(t) => Err(CardinalityError::UnsupportedType(t.clone())),
    }
}

/// The cardinality function, as a query engine registers it: by its name
/// and its other names.
#[derive(Debug)]
pub struct Cardinality {
    pub aliases: Vec<String>,
}

impl Cardinality {
    /// The function, known by its name alone.
    pub fn new() -> (r: Self)
        ensures
            r.aliases@.len() == 0,
    {
        Cardinality { aliases: Vec::new() }
    }

    /// The name the function is called by.
    pub fn name(&self) -> (r: &'static str)
        ensures
            r@ == "cardinality"@,
    {
        "cardinality"
    }

    /// The other names the function is called by.
    pub fn aliases(&self) -> (r: &[String])
        ensures
            r@ == self.aliases@,
    {
        self.aliases.as_slice()
    }

    /// Cardinality of every row of the one column in `args`.
    pub fn invoke_with_args(&self, args: &[Column]) -> (r: Result<
        Vec<Option<u64>>,
        CardinalityError,
    >)
        requires
            args@.len() == 1 ==> args@[0].wf(),
        ensures
            match r {
                Ok(v) => cardinality_of(args@) == Ok::<_, CardinalityError>(v@),
                Err(e) => cardinality_of(args@) == Err::<Seq<Option<u64>>, _>(e),
            },
    {
        cardinality_inner(args)
    }
}

impl Default for Cardinality {
    fn default() -> (r: Self)
        ensures
            r.aliases@.len() == 0,
    {
        Self::new()
    }
}

} // verus!
