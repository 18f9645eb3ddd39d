//! The test language that exercises the garbage collector: the parts of its
//! compiler that keep track of variables.
pub mod compile;
