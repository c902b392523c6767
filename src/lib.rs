//! Cardinality of the values of a column: the total number of elements of
//! each list row (the product of the sizes of its nesting levels), the number
//! of entries of each map row, zero for every row of an untyped column, and a
//! null result for a null row.
pub mod dims;
pub mod cardinality;
pub mod laws;
pub mod layout;
