//! Checking, assembling and hashing of compiled Starknet contract classes.
//!
//! - `types`: a structural matcher over the table of generic type applications.
//! - `entry_point`: the calling convention of entry functions, and compiled entry points.
//! - `casm_class`: the compiled class and the pipeline gates around the code generator.
//! - `hash`: the content hash of a compiled class.
//! - `felt`: naturals of any size and the Stark field.
use vstd::prelude::*;

pub mod casm_class;
pub mod entry_point;
pub mod error;
pub mod felt;
pub mod hash;
pub mod program;
pub mod types;

verus! {

} // verus!
