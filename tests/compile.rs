use casm_contract_class::casm_class::{
    constructor_entry_point_selector, current_sierra_version_id, metadata_computation_config,
    skip_if_none, CasmContractClass, CompiledProgram,
};
use casm_contract_class::error::StarknetSierraCompilationError;
use casm_contract_class::felt::{canonicalize_word, BigNat, SignedBig};
use casm_contract_class::program::{
    ContractClass, ContractEntryPoint, ContractEntryPoints, DecodedProgram, Function,
    FunctionSignature, Program, VersionId,
};
use casm_contract_class::types::{
    ConcreteTypeId, ConcreteTypeLongId, GenericArg, GenericTypeId, TypeDeclaration, TypeResolver,
};
use num_bigint::BigUint;
use sha3::{Digest, Keccak256};

fn num(v: u64) -> BigNat {
    BigNat::from_bytes_be(v.to_be_bytes().to_vec())
}

fn big(b: &BigNat) -> BigUint {
    BigUint::from_bytes_be(&b.bytes)
}

const PRIME_HEX: &[u8] = b"800000000000011000000000000000000000000000000000000000000000001";

fn prime() -> BigUint {
    BigUint::parse_bytes(PRIME_HEX, 16).unwrap()
}

fn prime_nat() -> BigNat {
    BigNat::from_bytes_be(prime().to_bytes_be())
}

fn ty(id: u64) -> ConcreteTypeId {
    ConcreteTypeId { id }
}

fn decl(id: u64, name: &str, args: Vec<GenericArg>) -> TypeDeclaration {
    TypeDeclaration {
        id: ty(id),
        long_id: ConcreteTypeLongId {
            generic_id: GenericTypeId { name: name.to_string() },
            generic_args: args,
        },
    }
}

const RANGE_CHECK: u64 = 8;
const GAS: u64 = 6;
const SYSTEM: u64 = 7;
const SPAN: u64 = 3;
const PANIC_RESULT: u64 = 5;

fn type_table() -> Vec<TypeDeclaration> {
    vec![
        decl(0, "felt252", vec![]),
        decl(1, "Array", vec![GenericArg::Type(ty(0))]),
        decl(2, "Snapshot", vec![GenericArg::Type(ty(1))]),
        decl(3, "Struct", vec![GenericArg::UserType, GenericArg::Type(ty(2))]),
        decl(4, "Struct", vec![GenericArg::UserType, GenericArg::Type(ty(3))]),
        decl(5, "Enum", vec![GenericArg::UserType, GenericArg::Type(ty(4)), GenericArg::Type(ty(1))]),
        decl(6, "GasBuiltin", vec![]),
        decl(7, "System", vec![]),
        decl(8, "RangeCheck", vec![]),
        decl(9, "SegmentArena", vec![]),
        // A result whose success branch is the span itself, not a one-field tuple of it.
        decl(10, "Enum", vec![GenericArg::UserType, GenericArg::Type(ty(3)), GenericArg::Type(ty(1))]),
        // The structured panic data: (panic, Array<felt252>).
        decl(11, "Struct", vec![GenericArg::UserType, GenericArg::Type(ty(0)), GenericArg::Type(ty(1))]),
        decl(12, "Enum", vec![GenericArg::UserType, GenericArg::Type(ty(4)), GenericArg::Type(ty(11))]),
        decl(13, "Array", vec![GenericArg::Type(ty(6))]),
    ]
}

fn function(id: u64, params: Vec<u64>, rets: Vec<u64>, entry_point: usize) -> Function {
    Function {
        id,
        signature: FunctionSignature {
            param_types: params.into_iter().map(ty).collect(),
            ret_types: rets.into_iter().map(ty).collect(),
        },
        entry_point,
    }
}

fn valid_function(id: u64, entry_point: usize) -> Function {
    function(id, vec![RANGE_CHECK, GAS, SYSTEM, SPAN], vec![RANGE_CHECK, GAS, SYSTEM, PANIC_RESULT], entry_point)
}

fn program(funcs: Vec<Function>) -> Program {
    Program { type_declarations: type_table(), funcs }
}

fn decoded(funcs: Vec<Function>) -> Result<DecodedProgram, String> {
    Ok(DecodedProgram { version: VersionId { major: 1, minor: 4, patch: 0 }, program: program(funcs) })
}

fn ep(selector: u64, function_idx: usize) -> ContractEntryPoint {
    ContractEntryPoint { selector: num(selector), function_idx }
}

fn ctor_ep(function_idx: usize) -> ContractEntryPoint {
    ContractEntryPoint { selector: constructor_entry_point_selector(), function_idx }
}

fn class(
    constructor: Vec<ContractEntryPoint>,
    external: Vec<ContractEntryPoint>,
    l1_handler: Vec<ContractEntryPoint>,
) -> ContractClass {
    ContractClass {
        sierra_program: vec![num(1), num(2)],
        entry_points_by_type: ContractEntryPoints { external, l1_handler, constructor },
    }
}

fn word(v: i64) -> SignedBig {
    SignedBig { negative: v < 0, magnitude: num(v.unsigned_abs()) }
}

fn compiled(words: Vec<i64>) -> Result<CompiledProgram, String> {
    Ok(CompiledProgram {
        bytecode: words.into_iter().map(word).collect(),
        hints: vec![],
        statement_code_offsets: vec![0, 7, 12],
    })
}

fn costs(n: usize) -> Result<Vec<Option<i64>>, String> {
    Ok(vec![Some(10000); n])
}

fn compile_with(
    cc: ContractClass,
    funcs: Vec<Function>,
) -> Result<CasmContractClass, StarknetSierraCompilationError> {
    let n = funcs.len();
    CasmContractClass::from_contract_class(cc, decoded(funcs), costs(n), compiled(vec![1, -5, 7]), None)
}

#[test]
fn compiles_valid_contract() {
    let cc = class(vec![ctor_ep(1)], vec![ep(10, 0), ep(20, 0)], vec![]);
    let c = compile_with(cc, vec![valid_function(100, 1), valid_function(101, 2)]).unwrap();
    assert_eq!(big(&c.prime), prime());
    assert_eq!(c.compiler_version, "2.4.4");
    let words: Vec<BigUint> = c.bytecode.iter().map(big).collect();
    assert_eq!(words, vec![BigUint::from(1u32), prime() - BigUint::from(5u32), BigUint::from(7u32)]);
    assert!(c.pythonic_hints.is_none());
    let ext = &c.entry_points_by_type.external;
    assert_eq!(ext.len(), 2);
    assert_eq!(big(&ext[0].selector), BigUint::from(10u32));
    assert_eq!(ext[0].offset, 7);
    assert_eq!(ext[0].builtins, vec!["range_check".to_string()]);
    assert_eq!(big(&ext[1].selector), BigUint::from(20u32));
    let ctor = &c.entry_points_by_type.constructor;
    assert_eq!(ctor.len(), 1);
    assert_eq!(ctor[0].offset, 12);
    assert!(c.entry_points_by_type.l1_handler.is_empty());
}

#[test]
fn accepts_structured_panic_data() {
    let f = function(0, vec![RANGE_CHECK, GAS, SYSTEM, SPAN], vec![RANGE_CHECK, GAS, SYSTEM, 12], 0);
    let c = compile_with(class(vec![], vec![ep(1, 0)], vec![]), vec![f]).unwrap();
    assert_eq!(c.entry_points_by_type.external[0].offset, 0);
}

#[test]
fn renders_builtin_names_in_snake_case() {
    let f = function(0, vec![RANGE_CHECK, 9, GAS, SYSTEM, SPAN], vec![RANGE_CHECK, 9, GAS, SYSTEM, PANIC_RESULT], 0);
    let c = compile_with(class(vec![], vec![ep(1, 0)], vec![]), vec![f]).unwrap();
    assert_eq!(
        c.entry_points_by_type.external[0].builtins,
        vec!["range_check".to_string(), "segment_arena".to_string()]
    );
}

#[test]
fn rejects_duplicate_selector() {
    let r = compile_with(class(vec![], vec![ep(5, 0), ep(5, 0)], vec![]), vec![valid_function(0, 0)]);
    match r {
        Err(StarknetSierraCompilationError::DuplicateEntryPointSelector { selector }) => {
            assert_eq!(big(&selector), BigUint::from(5u32))
        }
        other => panic!("unexpected {:?}", other.map(|_| ())),
    }
}

#[test]
fn rejects_unsorted_selectors() {
    let r = compile_with(class(vec![], vec![ep(20, 0), ep(10, 0)], vec![]), vec![valid_function(0, 0)]);
    assert!(matches!(r, Err(StarknetSierraCompilationError::EntryPointsOutOfOrder)));
}

#[test]
fn rejects_function_used_three_times() {
    let r = compile_with(class(vec![ctor_ep(0)], vec![ep(1, 0)], vec![ep(2, 0)]), vec![valid_function(0, 0)]);
    assert!(matches!(r, Err(StarknetSierraCompilationError::DuplicateEntryPointSierraFunction { index: 0 })));
}

#[test]
fn accepts_function_used_twice() {
    let r = compile_with(class(vec![], vec![ep(1, 0)], vec![ep(2, 0)]), vec![valid_function(0, 0)]);
    assert!(r.is_ok());
}

#[test]
fn rejects_wrong_constructor_selector() {
    let r = compile_with(class(vec![ep(7, 0)], vec![], vec![]), vec![valid_function(0, 0)]);
    assert!(matches!(r, Err(StarknetSierraCompilationError::InvalidConstructorEntryPoint)));
}

#[test]
fn rejects_two_constructors() {
    let r = compile_with(class(vec![ctor_ep(0), ctor_ep(0)], vec![], vec![]), vec![valid_function(0, 0)]);
    assert!(matches!(r, Err(StarknetSierraCompilationError::InvalidConstructorEntryPoint)));
}

#[test]
fn rejects_newer_major_version() {
    let cc = class(vec![], vec![ep(1, 0)], vec![]);
    let d = Ok(DecodedProgram { version: VersionId { major: 2, minor: 0, patch: 0 }, program: program(vec![valid_function(0, 0)]) });
    let r = CasmContractClass::from_contract_class(cc, d, costs(1), compiled(vec![]), None);
    match r {
        Err(StarknetSierraCompilationError::UnsupportedSierraVersion { version_in_contract, version_of_compiler }) => {
            assert_eq!(version_in_contract, VersionId { major: 2, minor: 0, patch: 0 });
            assert_eq!(version_of_compiler, current_sierra_version_id());
            assert_eq!(version_of_compiler, VersionId { major: 1, minor: 4, patch: 0 });
        }
        other => panic!("unexpected {:?}", other.map(|_| ())),
    }
}

#[test]
fn rejects_newer_minor_version() {
    let cc = class(vec![], vec![], vec![]);
    let d = Ok(DecodedProgram { version: VersionId { major: 1, minor: 5, patch: 0 }, program: program(vec![]) });
    let r = CasmContractClass::from_contract_class(cc, d, costs(0), compiled(vec![]), None);
    assert!(matches!(r, Err(StarknetSierraCompilationError::UnsupportedSierraVersion { .. })));
}

#[test]
fn rejects_success_branch_without_tuple() {
    let f = function(0, vec![RANGE_CHECK, GAS, SYSTEM, SPAN], vec![RANGE_CHECK, GAS, SYSTEM, 10], 0);
    let r = compile_with(class(vec![], vec![ep(1, 0)], vec![]), vec![f]);
    assert!(matches!(r, Err(StarknetSierraCompilationError::InvalidEntryPointSignature)));
}

#[test]
fn rejects_non_span_input() {
    let f = function(0, vec![RANGE_CHECK, GAS, SYSTEM, 1], vec![RANGE_CHECK, GAS, SYSTEM, PANIC_RESULT], 0);
    let r = compile_with(class(vec![], vec![ep(1, 0)], vec![]), vec![f]);
    assert!(matches!(r, Err(StarknetSierraCompilationError::InvalidEntryPointSignature)));
}

#[test]
fn rejects_mismatched_builtins() {
    let f = function(0, vec![RANGE_CHECK, GAS, SYSTEM, SPAN], vec![9, GAS, SYSTEM, PANIC_RESULT], 0);
    let r = compile_with(class(vec![], vec![ep(1, 0)], vec![]), vec![f]);
    assert!(matches!(r, Err(StarknetSierraCompilationError::InvalidEntryPointSignature)));
}

#[test]
fn rejects_missing_return_values() {
    let f = function(0, vec![SYSTEM, SPAN], vec![SYSTEM, PANIC_RESULT], 0);
    let r = compile_with(class(vec![], vec![ep(1, 0)], vec![]), vec![f]);
    assert!(matches!(r, Err(StarknetSierraCompilationError::InvalidEntryPointSignatureMissingArgs)));
}

#[test]
fn rejects_unknown_builtin_type() {
    let f = function(0, vec![0, GAS, SYSTEM, SPAN], vec![0, GAS, SYSTEM, PANIC_RESULT], 0);
    let r = compile_with(class(vec![], vec![ep(1, 0)], vec![]), vec![f]);
    assert!(matches!(r, Err(StarknetSierraCompilationError::InvalidBuiltinType(ConcreteTypeId { id: 0 }))));
}

#[test]
fn rejects_wrong_builtin_order() {
    let f = function(0, vec![GAS, RANGE_CHECK, SYSTEM, SPAN], vec![GAS, RANGE_CHECK, SYSTEM, PANIC_RESULT], 0);
    let r = compile_with(class(vec![], vec![ep(1, 0)], vec![]), vec![f]);
    assert!(matches!(r, Err(StarknetSierraCompilationError::InvalidEntryPointSignatureWrongBuiltinsOrder)));
}

#[test]
fn rejects_missing_function() {
    let r = compile_with(class(vec![], vec![ep(1, 3)], vec![]), vec![valid_function(0, 0)]);
    assert!(matches!(r, Err(StarknetSierraCompilationError::EntryPointError)));
}

#[test]
fn rejects_missing_code_offset() {
    let r = compile_with(class(vec![], vec![ep(1, 0)], vec![]), vec![valid_function(0, 9)]);
    assert!(matches!(r, Err(StarknetSierraCompilationError::EntryPointError)));
}

#[test]
fn reports_unexpected_entry_point_cost() {
    let cc = class(vec![], vec![ep(1, 0)], vec![]);
    let r = CasmContractClass::from_contract_class(cc, decoded(vec![valid_function(0, 0)]), Ok(vec![Some(9999)]), compiled(vec![]), None);
    assert!(matches!(r, Err(StarknetSierraCompilationError::EntryPointCostMismatch)));
}

#[test]
fn rejects_program_value_out_of_range() {
    let mut cc = class(vec![], vec![], vec![]);
    cc.sierra_program.push(prime_nat());
    let r = CasmContractClass::from_contract_class(cc, decoded(vec![]), costs(0), compiled(vec![]), None);
    assert!(matches!(r, Err(StarknetSierraCompilationError::ValueOutOfRange)));
}

#[test]
fn passes_collaborator_errors_on() {
    let r = CasmContractClass::from_contract_class(class(vec![], vec![], vec![]), Err("bad encoding".to_string()), costs(0), compiled(vec![]), None);
    assert!(matches!(r, Err(StarknetSierraCompilationError::Felt252SerdeError(m)) if m == "bad encoding"));
    let r = CasmContractClass::from_contract_class(class(vec![], vec![], vec![]), decoded(vec![]), Err("no solution".to_string()), compiled(vec![]), None);
    assert!(matches!(r, Err(StarknetSierraCompilationError::MetadataError(m)) if m == "no solution"));
    let r = CasmContractClass::from_contract_class(class(vec![], vec![], vec![]), decoded(vec![]), costs(0), Err("bad libfunc".to_string()), None);
    assert!(matches!(r, Err(StarknetSierraCompilationError::CompilationError(m)) if m == "bad libfunc"));
}

#[test]
fn canonicalizes_negative_words() {
    let p = prime_nat();
    let minus_five = canonicalize_word(&word(-5), &p);
    assert_eq!(big(&minus_five), prime() - BigUint::from(5u32));
    let wrapped = SignedBig { negative: true, magnitude: BigNat::from_bytes_be((prime() + BigUint::from(5u32)).to_bytes_be()) };
    assert_eq!(big(&canonicalize_word(&wrapped, &p)), prime() - BigUint::from(5u32));
    let over = SignedBig { negative: false, magnitude: BigNat::from_bytes_be((prime() + BigUint::from(5u32)).to_bytes_be()) };
    assert_eq!(big(&canonicalize_word(&over, &p)), BigUint::from(5u32));
    assert_eq!(big(&canonicalize_word(&word(0), &p)), BigUint::from(0u32));
}

#[test]
fn builds_metadata_request() {
    let eps = ContractEntryPoints { external: vec![ep(1, 1), ep(2, 0)], l1_handler: vec![ep(3, 7)], constructor: vec![ctor_ep(0)] };
    let prog = program(vec![valid_function(40, 0), valid_function(41, 1)]);
    let cfg = metadata_computation_config(&eps, &prog, VersionId { major: 1, minor: 4, patch: 0 });
    assert_eq!(cfg.function_set_costs, vec![(40, 10000), (41, 10000), (40, 10000)]);
    assert!(cfg.linear_gas_solver && cfg.linear_ap_change_solver);
    let cfg = metadata_computation_config(&eps, &prog, VersionId { major: 1, minor: 3, patch: 0 });
    assert!(!cfg.linear_gas_solver && !cfg.linear_ap_change_solver);
}

#[test]
fn resolves_type_shapes() {
    let table = type_table();
    let r = TypeResolver { type_decl: &table };
    assert!(r.is_felt252_array(&ty(1)));
    assert!(!r.is_felt252_array(&ty(13)));
    assert!(r.is_felt252_array_snapshot(&ty(2)));
    assert!(!r.is_felt252_array_snapshot(&ty(1)));
    assert!(r.is_felt252_span(&ty(3)));
    assert!(!r.is_felt252_span(&ty(4)));
    assert_eq!(r.extract_result_ty(&ty(5)), Some((ty(4), ty(1))));
    assert_eq!(r.extract_struct1(&ty(4)), Some(ty(3)));
    assert_eq!(r.extract_struct2(&ty(11)), Some((ty(0), ty(1))));
    assert_eq!(r.extract_struct2(&ty(4)), None);
    assert!(r.is_valid_entry_point_return_type(&ty(5)));
    assert!(r.is_valid_entry_point_return_type(&ty(12)));
    assert!(!r.is_valid_entry_point_return_type(&ty(10)));
    assert!(!r.is_felt252_array(&ty(99)));
}

#[test]
fn skips_only_missing_fields() {
    assert!(skip_if_none::<u8>(&None));
    assert!(!skip_if_none(&Some(1u8)));
}

#[test]
fn constructor_selector_is_starknet_keccak_of_its_name() {
    let mut digest: [u8; 32] = Keccak256::digest(b"constructor").into();
    digest[0] &= 0x03;
    assert_eq!(big(&constructor_entry_point_selector()), BigUint::from_bytes_be(&digest));
}

#[test]
fn stores_negative_multiple_of_prime_as_zero() {
    let cc = class(vec![], vec![], vec![]);
    let minus_p = SignedBig { negative: true, magnitude: prime_nat() };
    let out = Ok(CompiledProgram { bytecode: vec![minus_p, word(-3)], hints: vec![], statement_code_offsets: vec![] });
    let c = CasmContractClass::from_contract_class(cc, decoded(vec![]), costs(0), out, None).unwrap();
    assert_eq!(big(&c.bytecode[0]), BigUint::from(0u32));
    assert_eq!(big(&c.bytecode[1]), prime() - BigUint::from(3u32));
    let w = SignedBig { negative: true, magnitude: prime_nat() };
    assert_eq!(big(&canonicalize_word(&w, &prime_nat())), BigUint::from(0u32));
}

#[test]
fn keeps_rendered_hints_that_follow_the_hints() {
    let cc = class(vec![], vec![], vec![]);
    let c = CasmContractClass::from_contract_class(cc, decoded(vec![]), costs(0), compiled(vec![]), Some(vec![])).unwrap();
    assert_eq!(c.pythonic_hints, Some(vec![]));
}

#[test]
fn rejects_rendered_hints_that_do_not_follow_the_hints() {
    let cc = class(vec![], vec![], vec![]);
    let rendered = Some(vec![(0, vec!["memory[ap] = 1".to_string()])]);
    let r = CasmContractClass::from_contract_class(cc, decoded(vec![]), costs(0), compiled(vec![]), rendered);
    assert!(matches!(r, Err(StarknetSierraCompilationError::PythonicHintsMismatch)));
}

#[test]
fn reports_hashability() {
    let c = compile_with(class(vec![], vec![ep(1, 0)], vec![]), vec![valid_function(0, 0)]).unwrap();
    assert!(c.is_hashable());
    let mut bad = compile_with(class(vec![], vec![ep(1, 0)], vec![]), vec![valid_function(0, 0)]).unwrap();
    bad.bytecode.push(prime_nat());
    assert!(!bad.is_hashable());
    let mut long_name = compile_with(class(vec![], vec![ep(1, 0)], vec![]), vec![valid_function(0, 0)]).unwrap();
    long_name.entry_points_by_type.external[0].builtins.push("x".repeat(40));
    assert!(!long_name.is_hashable());
}
