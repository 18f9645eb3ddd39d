//! Class file reader and verifier for the Java Virtual Machine, with the
//! descriptor grammar, a small character lexer and a few pieces of the
//! virtual machine's bookkeeping.
use vstd::prelude::*;

pub mod error;
pub mod stream;
pub mod text;
pub mod item;
pub mod parser;
pub mod testlang;
pub mod allocator;
pub mod bytecode;
pub mod fnvmap;
pub mod structure;

verus! {
} // verus!
