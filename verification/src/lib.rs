//! Translates a rustdoc JSON description of a crate's API into WIT
//! declarations, and pretty-prints the same description in Rust form.
pub mod diagnostics;
pub mod emit;
pub mod laws;
pub mod mapper;
pub mod model;
pub mod printer;
pub mod query;
pub mod text;
pub mod wit;

use vstd::prelude::*;

verus! {

/// Command-line arguments of the program: there are none.
#[derive(Debug)]
pub struct Args;

} // verus!
