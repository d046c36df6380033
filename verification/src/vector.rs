//! The server's one-dimensional arrays of fixed-size elements, and the
//! marker that says which native types may be their elements.

use libc::c_int;
use vstd::prelude::*;

verus! {

/// Implemented for the native types that the server can hold as they are.
pub trait PgType {

}

impl PgType for i16 {

}

impl PgType for bool {

}

/// A one-dimensional array as the server lays it out, such as its vectors
/// of small integers. Only a type marked `PgType` can be the element type.
pub struct PgVector<T: PgType> {
    /// The length word of the whole value.
    pub len: i32,
    /// The number of dimensions: always 1.
    pub ndim: c_int,
    /// Where the elements start when there is a null bitmap: always 0, as a
    /// vector holds no null.
    pub data_offset: i32,
    /// Identifier of the element type in the catalog.
    pub elemtype: u32,
    /// The number of elements.
    pub dim1: c_int,
    /// The index of the first element.
    pub lbound1: c_int,
    /// The elements.
    pub values: Vec<T>,
}

} // verus!
