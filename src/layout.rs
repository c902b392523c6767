//! Columnar layout of the values that the cardinality is taken of.
//!
//! A list column is stored as in Arrow: one validity flag per row, one
//! offset more than there are rows, and a child holding the elements of all
//! rows one after the other. Row `i` owns the child's elements from
//! `offsets[i]` up to, but not including, `offsets[i + 1]`.
use vstd::prelude::*;

verus! {

/// The offsets of a list layout, in 32-bit (`List`) or 64-bit (`LargeList`)
/// width.
pub enum Offsets {
    Small(Vec<i32>),
    Large(Vec<i64>),
}

impl View for Offsets {
    type V = Seq<int>;

    open spec fn view(&self) -> Seq<int> {
        match self {
            Offsets::Small(v) => v@.map_values(|x: i32| x as int),
            Offsets::Large(v) => v@.map_values(|x: i64| x as int),
        }
    }
}

impl Offsets {
    /// Number of offsets held.
    pub fn len(&self) -> (r: usize)
        ensures
            r == self@.len(),
    {
        match self {
            Offsets::Small(v) => v.len(),
            Offsets::Large(v) => v.len(),
        }
    }

    /// The offset at position `i`, in the wider width.
    pub fn value(&self, i: usize) -> (r: i64)
        requires
            i < self@.len(),
        ensures
            r == self@[i as int],
    {
        match self {
            Offsets::Small(v) => v[i] as i64,
            Offsets::Large(v) => v[i],
        }
    }

    /// The offset at position `i`, as an index.
    pub fn get(&self, i: usize) -> (r: usize)
        requires
            i < self@.len(),
            0 <= self@[i as int] <= usize::MAX,
        ensures
            r == self@[i as int],
    {
        match self {
            Offsets::Small(v) => v[i] as usize,
            Offsets::Large(v) => v[i] as usize,
        }
    }
}

/// The child of a list layout: the elements of all rows, one after the other.
pub enum Child {
    /// Elements that are not lists themselves (scalars, structs, maps...):
    /// only their number matters here.
    Leaf(usize),
    /// Elements that are lists: a nested level.
    List(ListLayout),
}

/// A list column, or a nested level of one.
pub struct ListLayout {
    pub offsets: Offsets,
    /// `validity[i]` is false where row `i` is null.
    pub validity: Vec<bool>,
    pub values: Box<Child>,
}

impl Child {
    /// Number of elements held.
    pub open spec fn len_spec(&self) -> int {
        match self {
            Child::Leaf(n) => *n as int,
            Child::List(l) => l.validity@.len() as int,
        }
    }

    /// Every nested level is well formed.
    pub open spec fn wf(&self) -> bool
        decreases self,
    {
        match self {
            Child::Leaf(_) => true,
            Child::List(l) => l.slots_wf() && l.values.wf(),
        }
    }

    /// Checks that every nested level is well formed.
    pub fn is_well_formed(&self) -> (r: bool)
        ensures
            r == self.wf(),
        decreases self,
    {
        match self {
            Child::Leaf(_) => true,
            Child::List(l) => l.is_well_formed(),
        }
    }

    /// Number of elements held.
    pub fn len(&self) -> (r: usize)
        ensures
            r == self.len_spec(),
    {
        match self {
            Child::Leaf(n) => *n,
            Child::List(l) => l.validity.len(),
        }
    }
}

impl ListLayout {
    /// Number of rows.
    pub open spec fn rows(&self) -> int {
        self.validity@.len() as int
    }

    /// The offsets of this level fit its rows and its child: each row's range
    /// is ordered and lies within the child.
    pub open spec fn slots_wf(&self) -> bool {
        &&& self.offsets@.len() == self.validity@.len() + 1
        &&& forall|i: int|
            0 <= i < self.validity@.len() ==> 0 <= #[trigger] self.offsets@[i] <= self.offsets@[i
                + 1] <= self.values.len_spec()
    }

    /// This level and every nested level are well formed.
    pub open spec fn wf(&self) -> bool {
        self.slots_wf() && self.values.wf()
    }

    /// Number of elements of row `i`.
    pub open spec fn row_len(&self, i: int) -> int {
        self.offsets@[i + 1] - self.offsets@[i]
    }

    /// Checks that the offsets of this level fit its rows and its child.
    pub fn slots_are_well_formed(&self) -> (r: bool)
        ensures
            r == self.slots_wf(),
    {
        let rows = self.validity.len();
        let m = self.offsets.len();
        if m == 0 || m - 1 != rows {
            return false;
        }
        let n = self.values.len();
        let mut i: usize = 0;
        while i < rows
            invariant
                i <= rows,
                rows == self.validity@.len(),
                m == self.offsets@.len(),
                m == rows + 1,
                n == self.values.len_spec(),
                forall|j: int|
                    0 <= j < i ==> 0 <= #[trigger] self.offsets@[j] <= self.offsets@[j + 1] <= n,
            decreases rows - i,
        {
            let a = self.offsets.value(i);
            let b = self.offsets.value(i + 1);
            if a < 0 || a > b || b as u64 > n as u64 {
                return false;
            }
            i = i + 1;
        }
        true
    }

    /// Checks that this level and every nested level are well formed.
    pub fn is_well_formed(&self) -> (r: bool)
        ensures
            r == self.wf(),
        decreases self,
    {
        self.slots_are_well_formed() && self.values.is_well_formed()
    }

    /// Number of rows.
    pub fn len(&self) -> (r: usize)
        ensures
            r == self.rows(),
    {
        self.validity.len()
    }

    /// Whether row `i` holds a value (is not null).
    pub fn is_valid(&self, i: usize) -> (r: bool)
        requires
            i < self.rows(),
        ensures
            r == self.validity@[i as int],
    {
        self.validity[i]
    }

    /// The range of the child's elements that row `i` owns.
    pub fn row_range(&self, i: usize) -> (r: (usize, usize))
        requires
            self.slots_wf(),
            i < self.rows(),
        ensures
            r.0 == self.offsets@[i as int],
            r.1 == self.offsets@[i + 1],
            r.0 <= r.1 <= self.values.len_spec(),
    {
        let n = self.values.len();
        let m = self.offsets.len();
        assert(i + 1 < m);
        assert(0 <= self.offsets@[i as int] <= self.offsets@[i + 1] <= n);
        (self.offsets.get(i), self.offsets.get(i + 1))
    }
}

/// A map column: one validity flag per row, and offsets into the sequence
/// of all rows' (key, value) entries, in 32-bit width as Arrow stores them.
pub struct MapLayout {
    pub offsets: Vec<i32>,
    /// `validity[i]` is false where row `i` is null.
    pub validity: Vec<bool>,
    /// Number of entries of all rows together.
    pub entries: usize,
}

impl MapLayout {
    /// Number of rows.
    pub open spec fn rows(&self) -> int {
        self.validity@.len() as int
    }

    /// Each row's range of entries is ordered and lies within the entries.
    pub open spec fn wf(&self) -> bool {
        &&& self.offsets@.len() == self.validity@.len() + 1
        &&& forall|i: int|
            0 <= i < self.validity@.len() ==> 0 <= #[trigger] self.offsets@[i] <= self.offsets@[i
                + 1] <= self.entries
    }

    /// Checks that each row's range of entries is ordered and lies within
    /// the entries.
    pub fn is_well_formed(&self) -> (r: bool)
        ensures
            r == self.wf(),
    {
        let rows = self.validity.len();
        let m = self.offsets.len();
        if m == 0 || m - 1 != rows {
            return false;
        }
        let mut i: usize = 0;
        while i < rows
            invariant
                i <= rows,
                rows == self.validity@.len(),
                m == self.offsets@.len(),
                m == rows + 1,
                forall|j: int|
                    0 <= j < i ==> 0 <= #[trigger] self.offsets@[j] <= self.offsets@[j + 1]
                        <= self.entries,
            decreases rows - i,
        {
            let a = self.offsets[i];
            let b = self.offsets[i + 1];
            if a < 0 || a > b || b as u64 > self.entries as u64 {
                return false;
            }
            i = i + 1;
        }
        true
    }

    /// Number of entries of row `i`.
    pub open spec fn entry_count(&self, i: int) -> int {
        self.offsets@[i + 1] - self.offsets@[i]
    }

    /// Number of rows.
    pub fn len(&self) -> (r: usize)
        ensures
            r == self.rows(),
    {
        self.validity.len()
    }

    /// Whether row `i` holds a value (is not null).
    pub fn is_valid(&self, i: usize) -> (r: bool)
        requires
            i < self.rows(),
        ensures
            r == self.validity@[i as int],
    {
        self.validity[i]
    }

    /// Number of entries of row `i`.
    pub fn row_entries(&self, i: usize) -> (r: usize)
        requires
            self.wf(),
            i < self.rows(),
        ensures
            r == self.entry_count(i as int),
    {
        let m = self.offsets.len();
        assert(i + 1 < m);
        assert(0 <= self.offsets@[i as int] <= self.offsets@[i + 1]);
        (self.offsets[i + 1] - self.offsets[i]) as usize
    }
}

/// A column: a declared type, fixed for all its rows, and the rows.
pub enum Column {
    /// A column of the untyped (null) type with this many rows: it holds no
    /// elements at all.
    Absent(usize),
    /// A list column, with 32-bit or 64-bit offsets.
    List(ListLayout),
    /// A map column.
    Mapping(MapLayout),
    /// A column of any other declared type, by the type's name.
    Other(String),
}

impl Column {
    /// The layout of the column is well formed.
    pub open spec fn wf(&self) -> bool {
        match self {
            Column::List(l) => l.wf(),
            Column::Mapping(m) => m.wf(),
            _ => true,
        }
    }

    /// Checks that the layout of the column is well formed.
    pub fn is_well_formed(&self) -> (r: bool)
        ensures
            r == self.wf(),
    {
        match self {
            Column::List(l) => l.is_well_formed(),
            Column::Mapping(m) => m.is_well_formed(),
            _ => true,
        }
    }
}

} // verus!
