//! The ways in which compiling a contract class can fail.
use vstd::prelude::*;

use crate::felt::BigNat;
use crate::program::VersionId;
use crate::types::ConcreteTypeId;

verus! {

/// Why a contract class could not be compiled. The errors of the outside
/// collaborators (code generation, decoding, metadata, libfunc allow-lists)
/// carry their message.
#[derive(Debug)]
pub enum StarknetSierraCompilationError {
    CompilationError(String),
    Felt252SerdeError(String),
    MetadataError(String),
    AllowedLibfuncsError(String),
    /// A missing function or a missing code offset.
    EntryPointError,
    InvalidEntryPointSignatureMissingArgs,
    InvalidEntryPointSignature,
    InvalidConstructorEntryPoint,
    /// A type in an entry function's signature that is not a supported builtin.
    InvalidBuiltinType(ConcreteTypeId),
    InvalidEntryPointSignatureWrongBuiltinsOrder,
    EntryPointsOutOfOrder,
    DuplicateEntryPointSelector { selector: BigNat },
    DuplicateEntryPointSierraFunction { index: usize },
    ValueOutOfRange,
    UnsupportedSierraVersion { version_in_contract: VersionId, version_of_compiler: VersionId },
    /// The metadata solver did not give an entry function the requested cost:
    /// a defect of the solver, not of the input.
    EntryPointCostMismatch,
    /// The hints rendered for the Python VM do not follow the compiled hints:
    /// other program counters, or another number of hints at one of them.
    PythonicHintsMismatch,
}

/// The two errors are the same kind and carry the same values.
pub open spec fn same_error(a: StarknetSierraCompilationError, b: StarknetSierraCompilationError) -> bool {
    match (a, b) {
        (
            StarknetSierraCompilationError::DuplicateEntryPointSelector { selector: x },
            StarknetSierraCompilationError::DuplicateEntryPointSelector { selector: y },
        ) => x.value() == y.value(),
        (
            StarknetSierraCompilationError::CompilationError(x),
            StarknetSierraCompilationError::CompilationError(y),
        ) => x@ == y@,
        (
            StarknetSierraCompilationError::Felt252SerdeError(x),
            StarknetSierraCompilationError::Felt252SerdeError(y),
        ) => x@ == y@,
        (
            StarknetSierraCompilationError::MetadataError(x),
            StarknetSierraCompilationError::MetadataError(y),
        ) => x@ == y@,
        (
            StarknetSierraCompilationError::AllowedLibfuncsError(x),
            StarknetSierraCompilationError::AllowedLibfuncsError(y),
        ) => x@ == y@,
        _ => a == b,
    }
}

} // verus!
