//! The compiled contract class, and the pipeline that checks a contract class,
//! hands it to the code generator and assembles the result.
use vstd::prelude::*;

use cairo_lang_casm::hints::Hint;

use crate::entry_point::{
    as_casm_entry_point, describes, entry_point_outcome, CasmContractEntryPoint,
    CasmContractEntryPoints, ENTRY_POINT_COST,
};
use crate::error::{same_error, StarknetSierraCompilationError};
use crate::felt::{
    be_value, big_cmp, big_eq, big_lt, canonical_word, canonicalize_bytecode, felt252_prime,
    field_prime, lemma_canonical_word_in_field, BigNat, SignedBig,
};
use crate::program::{ContractClass, ContractEntryPoint, ContractEntryPoints, DecodedProgram, Program, VersionId};

verus! {

#[verifier::external_type_specification]
#[verifier::external_body]
pub struct ExHint(Hint);

/// The Sierra version that this compiler supports.
pub open spec fn spec_sierra_version() -> VersionId {
    VersionId { major: 1, minor: 4, patch: 0 }
}

pub fn current_sierra_version_id() -> (r: VersionId)
    ensures
        r == spec_sierra_version(),
{
    VersionId { major: 1, minor: 4, patch: 0 }
}

/// The version of this compiler, as recorded in the compiled class.
pub fn current_compiler_version_id() -> (r: String)
    ensures
        r@ == "2.4.4"@,
{
    "2.4.4".to_owned()
}

/// A program of the contract's version can be compiled: same major version,
/// minor version no later than ours.
pub open spec fn version_supported(v: VersionId) -> bool {
    v.major == spec_sierra_version().major && v.minor <= spec_sierra_version().minor
}

/// The big-endian bytes of `starknet_keccak("constructor")`.
pub open spec fn constructor_selector_bytes() -> Seq<u8> {
    seq![
        0x02u8, 0x8f, 0xfe, 0x4f, 0xf0, 0xf2, 0x26, 0xa9, 0x10, 0x72, 0x53, 0xe1, 0x7a, 0x90,
        0x40, 0x99, 0xaa, 0x4f, 0x63, 0xa0, 0x2a, 0x56, 0x21, 0xde, 0x05, 0x76, 0xe5, 0xaa,
        0x71, 0xbc, 0x51, 0x94,
    ]
}

pub open spec fn constructor_selector_value() -> nat {
    be_value(constructor_selector_bytes())
}

/// The selector of the constructor entry point.
pub fn constructor_entry_point_selector() -> (r: BigNat)
    ensures
        r.value() == constructor_selector_value(),
{
    let bytes = vec![
        0x02u8, 0x8f, 0xfe, 0x4f, 0xf0, 0xf2, 0x26, 0xa9, 0x10, 0x72, 0x53, 0xe1, 0x7a, 0x90,
        0x40, 0x99, 0xaa, 0x4f, 0x63, 0xa0, 0x2a, 0x56, 0x21, 0xde, 0x05, 0x76, 0xe5, 0xaa,
        0x71, 0xbc, 0x51, 0x94,
    ];
    assert(bytes@ =~= constructor_selector_bytes());
    BigNat { bytes }
}

/// Input to the metadata solver: the gas cost that each entry function must
/// have, and which solvers to use.
#[derive(Debug)]
pub struct MetadataComputationConfig {
    pub function_set_costs: Vec<(u64, i64)>,
    pub linear_gas_solver: bool,
    pub linear_ap_change_solver: bool,
}

/// What the code generator produced: the assembled words, the hints by
/// program counter, and the code offset of each Sierra statement.
pub struct CompiledProgram {
    pub bytecode: Vec<SignedBig>,
    pub hints: Vec<(usize, Vec<Hint>)>,
    pub statement_code_offsets: Vec<usize>,
}

/// A compiled contract class.
pub struct CasmContractClass {
    pub prime: BigNat,
    pub compiler_version: String,
    pub bytecode: Vec<BigNat>,
    pub hints: Vec<(usize, Vec<Hint>)>,
    /// The hints rendered for the Python VM, when they were asked for.
    pub pythonic_hints: Option<Vec<(usize, Vec<String>)>>,
    pub entry_points_by_type: CasmContractEntryPoints,
}

pub open spec fn all_in_field(values: Seq<BigNat>) -> bool {
    forall|i: int| 0 <= i < values.len() ==> #[trigger] values[i].value() < field_prime()
}

pub open spec fn valid_constructor(ctor: Seq<ContractEntryPoint>) -> bool {
    ctor.len() == 0 || (ctor.len() == 1 && ctor[0].selector.value() == constructor_selector_value())
}

pub open spec fn selectors_sorted(s: Seq<ContractEntryPoint>) -> bool {
    forall|k: int| 0 <= k && k + 1 < s.len() ==> #[trigger] s[k].selector.value() < s[k + 1].selector.value()
}

/// `e` is the error for the first pair of neighbours in `s` that is not in
/// increasing order of selector.
pub open spec fn order_error(s: Seq<ContractEntryPoint>, e: StarknetSierraCompilationError) -> bool {
    exists|k: int|
        0 <= k && k + 1 < s.len() && selectors_sorted(#[trigger] s.subrange(0, k + 1))
            && s[k].selector.value() >= s[k + 1].selector.value() && if s[k].selector.value()
            == s[k + 1].selector.value() {
            same_error(
                e,
                StarknetSierraCompilationError::DuplicateEntryPointSelector { selector: s[k].selector },
            )
        } else {
            e == StarknetSierraCompilationError::EntryPointsOutOfOrder
        }
}

pub open spec fn function_indices(s: Seq<ContractEntryPoint>) -> Seq<usize> {
    s.map_values(|e: ContractEntryPoint| e.function_idx)
}

/// The functions of all entry points: constructor, external, then L1 handler.
pub open spec fn all_function_indices(eps: ContractEntryPoints) -> Seq<usize> {
    function_indices(eps.constructor@) + function_indices(eps.external@) + function_indices(eps.l1_handler@)
}

/// How often `v` occurs in `s`.
pub open spec fn occurrences(s: Seq<usize>, v: usize) -> nat
    decreases s.len(),
{
    if s.len() == 0 {
        0
    } else {
        occurrences(s.drop_last(), v) + if s.last() == v { 1nat } else { 0nat }
    }
}

/// The entry at `k` is the third use (or later) of its function.
pub open spec fn overused_at(s: Seq<usize>, k: int) -> bool {
    occurrences(s.subrange(0, k + 1), s[k]) > 2
}

pub open spec fn no_overuse_before(s: Seq<usize>, n: int) -> bool {
    forall|k: int| 0 <= k < n ==> !#[trigger] overused_at(s, k)
}

pub open spec fn usage_error(s: Seq<usize>, e: StarknetSierraCompilationError) -> bool {
    exists|k: int|
        0 <= k < s.len() && no_overuse_before(s, k) && #[trigger] overused_at(s, k)
            && e == StarknetSierraCompilationError::DuplicateEntryPointSierraFunction { index: s[k] }
}

pub open spec fn entry_points_ok(eps: ContractEntryPoints) -> bool {
    &&& valid_constructor(eps.constructor@)
    &&& selectors_sorted(eps.constructor@)
    &&& selectors_sorted(eps.external@)
    &&& selectors_sorted(eps.l1_handler@)
    &&& no_overuse_before(all_function_indices(eps), all_function_indices(eps).len() as int)
}

/// `e` is the error of the first check of the declared entry points that fails.
pub open spec fn entry_points_error(eps: ContractEntryPoints, e: StarknetSierraCompilationError) -> bool {
    if !valid_constructor(eps.constructor@) {
        e == StarknetSierraCompilationError::InvalidConstructorEntryPoint
    } else if !selectors_sorted(eps.constructor@) {
        order_error(eps.constructor@, e)
    } else if !selectors_sorted(eps.external@) {
        order_error(eps.external@, e)
    } else if !selectors_sorted(eps.l1_handler@) {
        order_error(eps.l1_handler@, e)
    } else {
        usage_error(all_function_indices(eps), e)
    }
}

/// Whether every value is below `bound`.
fn all_below(values: &Vec<BigNat>, bound: &BigNat) -> (r: bool)
    ensures
        r == forall|i: int| 0 <= i < values@.len() ==> #[trigger] values@[i].value() < bound.value(),
{
    let mut i: usize = 0;
    while i < values.len()
        invariant
            i <= values@.len(),
            forall|j: int| 0 <= j < i ==> #[trigger] values@[j].value() < bound.value(),
        decreases values@.len() - i,
    {
        if !big_lt(&values[i], bound) {
            return false;
        }
        i = i + 1;
    }
    true
}

/// The constructor group is empty, or holds the constructor selector alone.
pub fn is_valid_constructor(constructor: &Vec<ContractEntryPoint>) -> (r: bool)
    ensures
        r == valid_constructor(constructor@),
{
    if constructor.len() == 0 {
        true
    } else if constructor.len() == 1 {
        big_eq(&constructor[0].selector, &constructor_entry_point_selector())
    } else {
        false
    }
}

/// Checks that the selectors of a group strictly increase.
pub fn check_sorted(entry_points: &Vec<ContractEntryPoint>) -> (r: Result<(), StarknetSierraCompilationError>)
    ensures
        match r {
            Ok(()) => selectors_sorted(entry_points@),
            Err(e) => !selectors_sorted(entry_points@) && order_error(entry_points@, e),
        },
{
    let ghost s = entry_points@;
    if entry_points.len() == 0 {
        return Ok(());
    }
    let mut k: usize = 0;
    while k < entry_points.len() - 1
        invariant
            s == entry_points@,
            s.len() > 0,
            k < s.len(),
            selectors_sorted(s.subrange(0, k + 1)),
        decreases s.len() - k,
    {
        let prev = &entry_points[k];
        let next = &entry_points[k + 1];
        match big_cmp(&prev.selector, &next.selector) {
            core::cmp::Ordering::Less => {},
            core::cmp::Ordering::Equal => {
                let e = StarknetSierraCompilationError::DuplicateEntryPointSelector { selector: prev.selector.duplicate() };
                assert(same_error(e, StarknetSierraCompilationError::DuplicateEntryPointSelector { selector: s[k as int].selector }));
                assert(s.subrange(0, k + 1).len() == k + 1);
                return Err(e);
            },
            core::cmp::Ordering::Greater => {
                return Err(StarknetSierraCompilationError::EntryPointsOutOfOrder);
            },
        }
        proof {
            let a = s.subrange(0, k + 1);
            let b = s.subrange(0, k + 2);
            assert forall|j: int| 0 <= j && j + 1 < b.len() implies #[trigger] b[j].selector.value() < b[j + 1].selector.value() by {
                if j + 1 < a.len() {
                    assert(a[j] == b[j] && a[j + 1] == b[j + 1]);
                }
            }
        }
        k = k + 1;
    }
    proof {
        assert(s.subrange(0, k + 1) =~= s);
    }
    Ok(())
}

/// The functions of all entry points: constructor, external, then L1 handler.
pub fn entry_function_indices(eps: &ContractEntryPoints) -> (r: Vec<usize>)
    ensures
        r@ == all_function_indices(*eps),
{
    let mut out: Vec<usize> = Vec::new();
    let groups = [&eps.constructor, &eps.external, &eps.l1_handler];
    let ghost s0 = function_indices(eps.constructor@);
    let ghost s1 = function_indices(eps.external@);
    let ghost s2 = function_indices(eps.l1_handler@);
    let mut g: usize = 0;
    while g < 3
        invariant
            groups@ == seq![&eps.constructor, &eps.external, &eps.l1_handler],
            g <= 3,
            out@ == (if g == 0 { Seq::empty() } else if g == 1 { s0 } else if g == 2 { s0 + s1 } else { s0 + s1 + s2 }),
            s0 == function_indices(eps.constructor@),
            s1 == function_indices(eps.external@),
            s2 == function_indices(eps.l1_handler@),
        decreases 3 - g,
    {
        let group = groups[g];
        let ghost before = out@;
        let mut i: usize = 0;
        while i < group.len()
            invariant
                i <= group@.len(),
                out@ == before + function_indices(group@.subrange(0, i as int)),
            decreases group@.len() - i,
        {
            out.push(group[i].function_idx);
            assert(function_indices(group@.subrange(0, i + 1)) =~= function_indices(group@.subrange(0, i as int)).push(group@[i as int].function_idx));
            i = i + 1;
        }
        assert(group@.subrange(0, i as int) =~= group@);
        g = g + 1;
    }
    out
}

/// Checks that no function implements more than two entry points.
pub fn check_function_usages(indices: &Vec<usize>) -> (r: Result<(), StarknetSierraCompilationError>)
    ensures
        match r {
            Ok(()) => no_overuse_before(indices@, indices@.len() as int),
            Err(e) => !no_overuse_before(indices@, indices@.len() as int) && usage_error(indices@, e),
        },
{
    let ghost s = indices@;
    let n = indices.len();
    let mut k: usize = 0;
    while k < n
        invariant
            s == indices@,
            n == s.len(),
            k <= s.len(),
            no_overuse_before(s, k as int),
        decreases s.len() - k,
    {
        let v = indices[k];
        let mut usages: usize = 0;
        let mut j: usize = 0;
        while j <= k
            invariant
                s == indices@,
                n == s.len(),
                k < n,
                j <= k + 1,
                v == s[k as int],
                usages == occurrences(s.subrange(0, j as int), v),
                usages <= j,
            decreases k + 1 - j,
        {
            assert(s.subrange(0, j + 1).drop_last() =~= s.subrange(0, j as int));
            if indices[j] == v {
                usages = usages + 1;
            }
            j = j + 1;
        }
        if usages > 2 {
            assert(overused_at(s, k as int));
            return Err(StarknetSierraCompilationError::DuplicateEntryPointSierraFunction { index: v });
        }
        k = k + 1;
    }
    Ok(())
}

/// Checks the declared entry points: the constructor rule, the order of each
/// group, and how often each function is used.
pub fn check_entry_points(eps: &ContractEntryPoints) -> (r: Result<(), StarknetSierraCompilationError>)
    ensures
        match r {
            Ok(()) => entry_points_ok(*eps),
            Err(e) => !entry_points_ok(*eps) && entry_points_error(*eps, e),
        },
{
    if !is_valid_constructor(&eps.constructor) {
        return Err(StarknetSierraCompilationError::InvalidConstructorEntryPoint);
    }
    check_sorted(&eps.constructor)?;
    check_sorted(&eps.external)?;
    check_sorted(&eps.l1_handler)?;
    let indices = entry_function_indices(eps);
    check_function_usages(&indices)
}

/// The cost requests for the entry functions that exist in the program, in
/// the order of `idxs`.
pub open spec fn set_costs(program: Program, idxs: Seq<usize>) -> Seq<(u64, i64)>
    decreases idxs.len(),
{
    if idxs.len() == 0 {
        Seq::empty()
    } else {
        let rest = set_costs(program, idxs.drop_last());
        let i = idxs.last();
        if i < program.funcs@.len() {
            rest.push((program.funcs@[i as int].id, ENTRY_POINT_COST as i64))
        } else {
            rest
        }
    }
}

/// The linear solvers replace the equation solver from minor version 4 on.
pub open spec fn uses_linear_solvers(version: VersionId) -> bool {
    version.minor >= 4
}

/// The request to the metadata solver: every entry function must cost exactly
/// the entry-point cost. Entry points whose function does not exist are left
/// out here and rejected when the entry points are compiled.
pub fn metadata_computation_config(
    eps: &ContractEntryPoints,
    program: &Program,
    version: VersionId,
) -> (r: MetadataComputationConfig)
    ensures
        r.function_set_costs@ == set_costs(*program, all_function_indices(*eps)),
        r.linear_gas_solver == uses_linear_solvers(version),
        r.linear_ap_change_solver == uses_linear_solvers(version),
{
    let indices = entry_function_indices(eps);
    let mut costs: Vec<(u64, i64)> = Vec::new();
    let mut i: usize = 0;
    while i < indices.len()
        invariant
            i <= indices@.len(),
            costs@ == set_costs(*program, indices@.subrange(0, i as int)),
        decreases indices@.len() - i,
    {
        assert(indices@.subrange(0, i + 1).drop_last() =~= indices@.subrange(0, i as int));
        let idx = indices[i];
        if idx < program.funcs.len() {
            costs.push((program.funcs[idx].id, ENTRY_POINT_COST as i64));
        }
        i = i + 1;
    }
    assert(indices@.subrange(0, i as int) =~= indices@);
    let no_eq_solver = version.minor >= 4;
    MetadataComputationConfig {
        function_set_costs: costs,
        linear_gas_solver: no_eq_solver,
        linear_ap_change_solver: no_eq_solver,
    }
}

pub open spec fn group_ok(program: Program, offsets: Seq<usize>, costs: Seq<Option<i64>>, s: Seq<ContractEntryPoint>) -> bool {
    forall|k: int| 0 <= k < s.len() ==> (#[trigger] entry_point_outcome(program, offsets, costs, s[k].function_idx)) is Ok
}

/// `e` is the error of the first entry point of the group that is rejected.
pub open spec fn group_error(
    program: Program,
    offsets: Seq<usize>,
    costs: Seq<Option<i64>>,
    s: Seq<ContractEntryPoint>,
    e: StarknetSierraCompilationError,
) -> bool {
    exists|k: int|
        0 <= k < s.len() && group_ok(program, offsets, costs, s.subrange(0, k))
            && #[trigger] entry_point_outcome(program, offsets, costs, s[k].function_idx)
            == Err::<(usize, Seq<crate::types::ConcreteTypeId>), StarknetSierraCompilationError>(e)
}

/// `out` holds the compiled entry points of the group, in order.
pub open spec fn group_describes(
    program: Program,
    offsets: Seq<usize>,
    costs: Seq<Option<i64>>,
    s: Seq<ContractEntryPoint>,
    out: Seq<CasmContractEntryPoint>,
) -> bool {
    &&& out.len() == s.len()
    &&& forall|k: int| 0 <= k < s.len() ==> {
        let o = #[trigger] entry_point_outcome(program, offsets, costs, s[k].function_idx);
        describes(out[k], s[k], program.type_declarations@, o->Ok_0.0, o->Ok_0.1)
    }
}

/// Compiles a group of entry points, stopping at the first rejected one.
pub fn as_casm_entry_points(
    program: &Program,
    offsets: &Vec<usize>,
    costs: &Vec<Option<i64>>,
    entry_points: &Vec<ContractEntryPoint>,
) -> (r: Result<Vec<CasmContractEntryPoint>, StarknetSierraCompilationError>)
    ensures
        match r {
            Ok(out) => group_ok(*program, offsets@, costs@, entry_points@) && group_describes(
                *program,
                offsets@,
                costs@,
                entry_points@,
                out@,
            ),
            Err(e) => !group_ok(*program, offsets@, costs@, entry_points@) && group_error(
                *program,
                offsets@,
                costs@,
                entry_points@,
                e,
            ),
        },
{
    let ghost s = entry_points@;
    let mut out: Vec<CasmContractEntryPoint> = Vec::new();
    let mut i: usize = 0;
    while i < entry_points.len()
        invariant
            s == entry_points@,
            i <= s.len(),
            group_ok(*program, offsets@, costs@, s.subrange(0, i as int)),
            group_describes(*program, offsets@, costs@, s.subrange(0, i as int), out@),
        decreases s.len() - i,
    {
        let ghost prefix = s.subrange(0, i as int);
        match as_casm_entry_point(program, offsets, costs, &entry_points[i]) {
            Ok(c) => {
                let ghost before = out@;
                out.push(c);
                proof {
                    let next = s.subrange(0, i + 1);
                    assert forall|k: int| 0 <= k < next.len() implies (#[trigger] entry_point_outcome(*program, offsets@, costs@, next[k].function_idx)) is Ok by {
                        if k < i {
                            assert(next[k] == prefix[k]);
                        }
                    }
                    assert forall|k: int| 0 <= k < next.len() implies {
                        let o = #[trigger] entry_point_outcome(*program, offsets@, costs@, next[k].function_idx);
                        describes(out@[k], next[k], program.type_declarations@, o->Ok_0.0, o->Ok_0.1)
                    } by {
                        if k < i {
                            assert(next[k] == prefix[k]);
                            assert(out@[k] == before[k]);
                        }
                    }
                }
            },
            Err(e) => {
                proof {
                    assert(entry_point_outcome(*program, offsets@, costs@, s[i as int].function_idx) is Err);
                }
                return Err(e);
            },
        }
        i = i + 1;
    }
    assert(s.subrange(0, i as int) =~= s);
    Ok(out)
}

/// The rendered hints have the program counters of `hints`, and as many texts
/// at each as there are hints.
pub open spec fn renders(hints: Seq<(usize, Vec<Hint>)>, rendered: Seq<(usize, Vec<String>)>) -> bool {
    &&& rendered.len() == hints.len()
    &&& forall|i: int| 0 <= i < hints.len() ==> {
        &&& (#[trigger] rendered[i]).0 == hints[i].0
        &&& rendered[i].1@.len() == hints[i].1@.len()
    }
}

/// Whether the rendered hints match the hints: the same program counters in
/// the same order, and as many texts at each as there are hints.
pub fn renders_hints(hints: &Vec<(usize, Vec<Hint>)>, rendered: &Vec<(usize, Vec<String>)>) -> (r: bool)
    ensures
        r == renders(hints@, rendered@),
{
    if hints.len() != rendered.len() {
        return false;
    }
    let mut i: usize = 0;
    while i < hints.len()
        invariant
            i <= hints@.len(),
            hints@.len() == rendered@.len(),
            forall|k: int| 0 <= k < i ==> {
                &&& (#[trigger] rendered@[k]).0 == hints@[k].0
                &&& rendered@[k].1@.len() == hints@[k].1@.len()
            },
        decreases hints@.len() - i,
    {
        if rendered[i].0 != hints[i].0 || rendered[i].1.len() != hints[i].1.len() {
            return false;
        }
        i = i + 1;
    }
    true
}

/// Every gate of the pipeline passes.
pub open spec fn compiles(
    cc: ContractClass,
    decoded: Result<DecodedProgram, String>,
    costs: Result<Vec<Option<i64>>, String>,
    compiled: Result<CompiledProgram, String>,
    pythonic_hints: Option<Vec<(usize, Vec<String>)>>,
) -> bool {
    &&& all_in_field(cc.sierra_program@)
    &&& decoded is Ok
    &&& version_supported(decoded->Ok_0.version)
    &&& entry_points_ok(cc.entry_points_by_type)
    &&& costs is Ok
    &&& compiled is Ok
    &&& {
        let p = decoded->Ok_0.program;
        let offsets = compiled->Ok_0.statement_code_offsets@;
        let c = costs->Ok_0@;
        &&& group_ok(p, offsets, c, cc.entry_points_by_type.external@)
        &&& group_ok(p, offsets, c, cc.entry_points_by_type.l1_handler@)
        &&& group_ok(p, offsets, c, cc.entry_points_by_type.constructor@)
    }
    &&& pythonic_hints is Some ==> renders(compiled->Ok_0.hints@, pythonic_hints->Some_0@)
}

/// `e` is the error of the first gate of the pipeline that fails.
pub open spec fn pipeline_error(
    cc: ContractClass,
    decoded: Result<DecodedProgram, String>,
    costs: Result<Vec<Option<i64>>, String>,
    compiled: Result<CompiledProgram, String>,
    pythonic_hints: Option<Vec<(usize, Vec<String>)>>,
    e: StarknetSierraCompilationError,
) -> bool {
    let eps = cc.entry_points_by_type;
    if !all_in_field(cc.sierra_program@) {
        e == StarknetSierraCompilationError::ValueOutOfRange
    } else if decoded is Err {
        e == StarknetSierraCompilationError::Felt252SerdeError(decoded->Err_0)
    } else if !version_supported(decoded->Ok_0.version) {
        e == (StarknetSierraCompilationError::UnsupportedSierraVersion {
            version_in_contract: decoded->Ok_0.version,
            version_of_compiler: spec_sierra_version(),
        })
    } else if !entry_points_ok(eps) {
        entry_points_error(eps, e)
    } else if costs is Err {
        e == StarknetSierraCompilationError::MetadataError(costs->Err_0)
    } else if compiled is Err {
        e == StarknetSierraCompilationError::CompilationError(compiled->Err_0)
    } else {
        let p = decoded->Ok_0.program;
        let offsets = compiled->Ok_0.statement_code_offsets@;
        let c = costs->Ok_0@;
        if !group_ok(p, offsets, c, eps.external@) {
            group_error(p, offsets, c, eps.external@, e)
        } else if !group_ok(p, offsets, c, eps.l1_handler@) {
            group_error(p, offsets, c, eps.l1_handler@, e)
        } else if !group_ok(p, offsets, c, eps.constructor@) {
            group_error(p, offsets, c, eps.constructor@, e)
        } else {
            e == StarknetSierraCompilationError::PythonicHintsMismatch
        }
    }
}

/// The compiled class that the pipeline assembles from what the collaborators gave.
pub open spec fn assembled_from(
    c: CasmContractClass,
    cc: ContractClass,
    decoded: Result<DecodedProgram, String>,
    costs: Result<Vec<Option<i64>>, String>,
    compiled: Result<CompiledProgram, String>,
    pythonic_hints: Option<Vec<(usize, Vec<String>)>>,
) -> bool {
    let p = decoded->Ok_0.program;
    let out = compiled->Ok_0;
    let offsets = out.statement_code_offsets@;
    let k = costs->Ok_0@;
    let eps = cc.entry_points_by_type;
    &&& c.prime.value() == field_prime()
    &&& c.compiler_version@ == "2.4.4"@
    &&& c.bytecode@.len() == out.bytecode@.len()
    &&& forall|i: int| 0 <= i < out.bytecode@.len() ==> #[trigger] c.bytecode@[i].value() == canonical_word(out.bytecode@[i])
    &&& all_in_field(c.bytecode@)
    &&& c.hints == out.hints
    &&& c.pythonic_hints == pythonic_hints
    &&& group_describes(p, offsets, k, eps.external@, c.entry_points_by_type.external@)
    &&& group_describes(p, offsets, k, eps.l1_handler@, c.entry_points_by_type.l1_handler@)
    &&& group_describes(p, offsets, k, eps.constructor@, c.entry_points_by_type.constructor@)
}

/// What compiling gives: the assembled class when every gate passes, else the
/// error of the first gate that fails.
pub open spec fn compile_outcome(
    r: Result<CasmContractClass, StarknetSierraCompilationError>,
    cc: ContractClass,
    decoded: Result<DecodedProgram, String>,
    costs: Result<Vec<Option<i64>>, String>,
    compiled: Result<CompiledProgram, String>,
    pythonic_hints: Option<Vec<(usize, Vec<String>)>>,
) -> bool {
    match r {
        Ok(c) => compiles(cc, decoded, costs, compiled, pythonic_hints)
            && assembled_from(c, cc, decoded, costs, compiled, pythonic_hints),
        Err(e) => !compiles(cc, decoded, costs, compiled, pythonic_hints)
            && pipeline_error(cc, decoded, costs, compiled, pythonic_hints, e),
    }
}

impl CasmContractClass {
    /// Compiles a contract class. The outside collaborators' results are taken
    /// as arguments: `decoded` is the decoded Sierra program, `costs` gives for
    /// each function of the program (by position) its cost when that is a
    /// single constant, as the metadata solver computed it from
    /// [`metadata_computation_config`], `compiled` is what the code generator
    /// made of the program, and `pythonic_hints`, when asked for, are its hints
    /// rendered for the Python VM. Each gate is checked in order and the first
    /// failure is returned.
    pub fn from_contract_class(
        contract_class: ContractClass,
        decoded: Result<DecodedProgram, String>,
        costs: Result<Vec<Option<i64>>, String>,
        compiled: Result<CompiledProgram, String>,
        pythonic_hints: Option<Vec<(usize, Vec<String>)>>,
    ) -> (r: Result<CasmContractClass, StarknetSierraCompilationError>)
        ensures
            compile_outcome(r, contract_class, decoded, costs, compiled, pythonic_hints),
    {
        let prime = felt252_prime();
        if !all_below(&contract_class.sierra_program, &prime) {
            return Err(StarknetSierraCompilationError::ValueOutOfRange);
        }
        let decoded = match decoded {
            Ok(d) => d,
            Err(m) => {
                return Err(StarknetSierraCompilationError::Felt252SerdeError(m));
            },
        };
        let sierra_version = decoded.version;
        let current_sierra_version = current_sierra_version_id();
        if !(sierra_version.major == current_sierra_version.major && sierra_version.minor
            <= current_sierra_version.minor) {
            return Err(
                StarknetSierraCompilationError::UnsupportedSierraVersion {
                    version_in_contract: sierra_version,
                    version_of_compiler: current_sierra_version,
                },
            );
        }
        let eps = &contract_class.entry_points_by_type;
        check_entry_points(eps)?;
        let costs = match costs {
            Ok(c) => c,
            Err(m) => {
                return Err(StarknetSierraCompilationError::MetadataError(m));
            },
        };
        let compiled = match compiled {
            Ok(c) => c,
            Err(m) => {
                return Err(StarknetSierraCompilationError::CompilationError(m));
            },
        };
        let CompiledProgram { bytecode: words, hints, statement_code_offsets } = compiled;
        let bytecode = canonicalize_bytecode(&words, &prime);
        proof {
            assert forall|i: int| 0 <= i < bytecode@.len() implies #[trigger] bytecode@[i].value() < field_prime() by {
                lemma_canonical_word_in_field(words@[i]);
            }
        }
        let program = &decoded.program;
        let external = as_casm_entry_points(program, &statement_code_offsets, &costs, &eps.external)?;
        let l1_handler = as_casm_entry_points(program, &statement_code_offsets, &costs, &eps.l1_handler)?;
        let constructor = as_casm_entry_points(program, &statement_code_offsets, &costs, &eps.constructor)?;
        match &pythonic_hints {
            Some(rendered) => {
                if !renders_hints(&hints, rendered) {
                    return Err(StarknetSierraCompilationError::PythonicHintsMismatch);
                }
            },
            None => {},
        }
        Ok(CasmContractClass {
            prime,
            compiler_version: current_compiler_version_id(),
            bytecode,
            hints,
            pythonic_hints,
            entry_points_by_type: CasmContractEntryPoints { external, l1_handler, constructor },
        })
    }
}

/// Every word of a compiled class is a field element congruent to the
/// assembled word.
pub proof fn lemma_bytecode_in_field(
    c: CasmContractClass,
    cc: ContractClass,
    decoded: Result<DecodedProgram, String>,
    costs: Result<Vec<Option<i64>>, String>,
    compiled: Result<CompiledProgram, String>,
    pythonic_hints: Option<Vec<(usize, Vec<String>)>>,
)
    requires
        assembled_from(c, cc, decoded, costs, compiled, pythonic_hints),
    ensures
        all_in_field(c.bytecode@),
        forall|i: int| 0 <= i < c.bytecode@.len() ==> #[trigger] c.bytecode@[i].value() as int
            == compiled->Ok_0.bytecode@[i].value() % (field_prime() as int),
{
    let words = compiled->Ok_0.bytecode@;
    assert forall|i: int| 0 <= i < c.bytecode@.len() implies #[trigger] c.bytecode@[i].value() as int
        == words[i].value() % (field_prime() as int) by {
        lemma_canonical_word_in_field(words[i]);
    }
}

proof fn lemma_order_error_unique(s: Seq<ContractEntryPoint>, e1: StarknetSierraCompilationError, e2: StarknetSierraCompilationError)
    requires
        order_error(s, e1),
        order_error(s, e2),
    ensures
        same_error(e1, e2),
{
    let k1 = choose|k: int|
        0 <= k && k + 1 < s.len() && selectors_sorted(#[trigger] s.subrange(0, k + 1))
            && s[k].selector.value() >= s[k + 1].selector.value() && if s[k].selector.value()
            == s[k + 1].selector.value() {
            same_error(e1, StarknetSierraCompilationError::DuplicateEntryPointSelector { selector: s[k].selector })
        } else {
            e1 == StarknetSierraCompilationError::EntryPointsOutOfOrder
        };
    let k2 = choose|k: int|
        0 <= k && k + 1 < s.len() && selectors_sorted(#[trigger] s.subrange(0, k + 1))
            && s[k].selector.value() >= s[k + 1].selector.value() && if s[k].selector.value()
            == s[k + 1].selector.value() {
            same_error(e2, StarknetSierraCompilationError::DuplicateEntryPointSelector { selector: s[k].selector })
        } else {
            e2 == StarknetSierraCompilationError::EntryPointsOutOfOrder
        };
    if k1 < k2 {
        let sub = s.subrange(0, k2 + 1);
        assert(sub[k1] == s[k1] && sub[k1 + 1] == s[k1 + 1]);
    }
    if k2 < k1 {
        let sub = s.subrange(0, k1 + 1);
        assert(sub[k2] == s[k2] && sub[k2 + 1] == s[k2 + 1]);
    }
}

proof fn lemma_usage_error_unique(s: Seq<usize>, e1: StarknetSierraCompilationError, e2: StarknetSierraCompilationError)
    requires
        usage_error(s, e1),
        usage_error(s, e2),
    ensures
        e1 == e2,
{
    let k1 = choose|k: int|
        0 <= k < s.len() && no_overuse_before(s, k) && #[trigger] overused_at(s, k)
            && e1 == StarknetSierraCompilationError::DuplicateEntryPointSierraFunction { index: s[k] };
    let k2 = choose|k: int|
        0 <= k < s.len() && no_overuse_before(s, k) && #[trigger] overused_at(s, k)
            && e2 == StarknetSierraCompilationError::DuplicateEntryPointSierraFunction { index: s[k] };
    assert(k1 == k2);
}

proof fn lemma_group_error_unique(
    p: Program,
    offsets: Seq<usize>,
    costs: Seq<Option<i64>>,
    s: Seq<ContractEntryPoint>,
    e1: StarknetSierraCompilationError,
    e2: StarknetSierraCompilationError,
)
    requires
        group_error(p, offsets, costs, s, e1),
        group_error(p, offsets, costs, s, e2),
    ensures
        e1 == e2,
{
    let k1 = choose|k: int|
        0 <= k < s.len() && group_ok(p, offsets, costs, s.subrange(0, k))
            && #[trigger] entry_point_outcome(p, offsets, costs, s[k].function_idx)
            == Err::<(usize, Seq<crate::types::ConcreteTypeId>), StarknetSierraCompilationError>(e1);
    let k2 = choose|k: int|
        0 <= k < s.len() && group_ok(p, offsets, costs, s.subrange(0, k))
            && #[trigger] entry_point_outcome(p, offsets, costs, s[k].function_idx)
            == Err::<(usize, Seq<crate::types::ConcreteTypeId>), StarknetSierraCompilationError>(e2);
    if k1 < k2 {
        assert(s.subrange(0, k2)[k1] == s[k1]);
    }
    if k2 < k1 {
        assert(s.subrange(0, k1)[k2] == s[k2]);
    }
}

/// Compiling the same contract class twice, with the same collaborator results
/// and rendered hints, succeeds both times or fails both times; two failures
/// are the same error, and two successes the same bytecode, hints, rendered
/// hints and entry points.
pub proof fn lemma_compile_outcome_deterministic(
    r1: Result<CasmContractClass, StarknetSierraCompilationError>,
    r2: Result<CasmContractClass, StarknetSierraCompilationError>,
    cc: ContractClass,
    decoded: Result<DecodedProgram, String>,
    costs: Result<Vec<Option<i64>>, String>,
    compiled: Result<CompiledProgram, String>,
    pythonic_hints: Option<Vec<(usize, Vec<String>)>>,
)
    requires
        compile_outcome(r1, cc, decoded, costs, compiled, pythonic_hints),
        compile_outcome(r2, cc, decoded, costs, compiled, pythonic_hints),
    ensures
        (r1 is Ok) == (r2 is Ok),
        r1 is Err ==> same_error(r1->Err_0, r2->Err_0),
        r1 is Ok ==> {
            &&& crate::hash::values_of(r1->Ok_0.bytecode@) == crate::hash::values_of(r2->Ok_0.bytecode@)
            &&& r1->Ok_0.hints == r2->Ok_0.hints
            &&& r1->Ok_0.pythonic_hints == r2->Ok_0.pythonic_hints
            &&& r1->Ok_0.prime.value() == r2->Ok_0.prime.value()
            &&& r1->Ok_0.compiler_version@ == r2->Ok_0.compiler_version@
            &&& crate::hash::class_hash_value(r1->Ok_0) == crate::hash::class_hash_value(r2->Ok_0)
        },
{
    if r1 is Ok && r2 is Ok {
        crate::hash::lemma_compilation_deterministic(
            r1->Ok_0, r2->Ok_0, cc, decoded, costs, compiled, pythonic_hints, pythonic_hints);
    }
    if r1 is Err && r2 is Err {
        let e1 = r1->Err_0;
        let e2 = r2->Err_0;
        let eps = cc.entry_points_by_type;
        if all_in_field(cc.sierra_program@) && decoded is Ok && version_supported(decoded->Ok_0.version) {
            if !entry_points_ok(eps) {
                if !valid_constructor(eps.constructor@) {
                } else if !selectors_sorted(eps.constructor@) {
                    lemma_order_error_unique(eps.constructor@, e1, e2);
                } else if !selectors_sorted(eps.external@) {
                    lemma_order_error_unique(eps.external@, e1, e2);
                } else if !selectors_sorted(eps.l1_handler@) {
                    lemma_order_error_unique(eps.l1_handler@, e1, e2);
                } else {
                    lemma_usage_error_unique(all_function_indices(eps), e1, e2);
                }
            } else if costs is Ok && compiled is Ok {
                let p = decoded->Ok_0.program;
                let offsets = compiled->Ok_0.statement_code_offsets@;
                let c = costs->Ok_0@;
                if !group_ok(p, offsets, c, eps.external@) {
                    lemma_group_error_unique(p, offsets, c, eps.external@, e1, e2);
                } else if !group_ok(p, offsets, c, eps.l1_handler@) {
                    lemma_group_error_unique(p, offsets, c, eps.l1_handler@, e1, e2);
                } else if !group_ok(p, offsets, c, eps.constructor@) {
                    lemma_group_error_unique(p, offsets, c, eps.constructor@, e1, e2);
                }
            }
        }
    }
}

/// Whether an optional field is left out when the class is written out.
pub fn skip_if_none<T>(opt_field: &Option<T>) -> (r: bool)
    ensures
        r == opt_field is None,
{
    opt_field.is_none()
}

} // verus!
