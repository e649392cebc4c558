//! The contract class that is compiled, and the decoded Sierra program.
use vstd::prelude::*;

use crate::felt::BigNat;
use crate::types::{ConcreteTypeId, TypeDeclaration};

verus! {

/// A (major, minor, patch) version of Sierra.
#[derive(Clone, Copy, Debug, PartialEq, Eq, Structural)]
pub struct VersionId {
    pub major: u64,
    pub minor: u64,
    pub patch: u64,
}

/// An entry point of the contract class as declared: its selector and the
/// index of the Sierra function that implements it.
#[derive(Debug)]
pub struct ContractEntryPoint {
    pub selector: BigNat,
    pub function_idx: usize,
}

/// The declared entry points, by kind.
#[derive(Debug)]
pub struct ContractEntryPoints {
    pub external: Vec<ContractEntryPoint>,
    pub l1_handler: Vec<ContractEntryPoint>,
    pub constructor: Vec<ContractEntryPoint>,
}

/// A contract class: its Sierra program encoded as field elements, and its entry points.
#[derive(Debug)]
pub struct ContractClass {
    pub sierra_program: Vec<BigNat>,
    pub entry_points_by_type: ContractEntryPoints,
}

/// Parameter and return types of a Sierra function.
#[derive(Debug)]
pub struct FunctionSignature {
    pub param_types: Vec<ConcreteTypeId>,
    pub ret_types: Vec<ConcreteTypeId>,
}

/// A Sierra function: its identifier, signature and first statement.
#[derive(Debug)]
pub struct Function {
    pub id: u64,
    pub signature: FunctionSignature,
    pub entry_point: usize,
}

/// The parts of a decoded Sierra program that the entry points are checked against.
#[derive(Debug)]
pub struct Program {
    pub type_declarations: Vec<TypeDeclaration>,
    pub funcs: Vec<Function>,
}

/// A decoded Sierra program with the version it declares.
#[derive(Debug)]
pub struct DecodedProgram {
    pub version: VersionId,
    pub program: Program,
}

} // verus!
