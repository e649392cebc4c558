//! Validation of one entry function against the calling convention, and its
//! transformation into a compiled entry point.
use vstd::prelude::*;

use convert_case::{Case, Casing};

use crate::error::StarknetSierraCompilationError;
use crate::felt::BigNat;
use crate::program::{ContractEntryPoint, Program};
use crate::types::{
    has_generic, long_id_at, spec_is_felt252_span, spec_is_valid_entry_point_return_type,
    ConcreteTypeId, TypeResolver,
};

verus! {

/// The gas cost that the metadata solver is asked to assign to every entry function.
pub const ENTRY_POINT_COST: i32 = 10000;

/// A name for what convert_case makes of a generic type name in snake case.
pub uninterp spec fn snake_case_of(s: Seq<char>) -> Seq<char>;

/// Relies on `Casing::to_case` of convert_case with `Case::Snake`: the result
/// is a function of the characters of the input alone.
#[verifier::external_body]
fn to_snake_case(s: &String) -> (r: String)
    ensures
        r@ == snake_case_of(s@),
{
    s.as_str().to_case(Case::Snake)
}

/// A compiled entry point.
#[derive(Debug)]
pub struct CasmContractEntryPoint {
    /// A field element that encodes the signature of the called function.
    pub selector: BigNat,
    /// The offset of the instruction that should be called within the contract bytecode.
    pub offset: usize,
    /// The builtins that the function takes, in calling-convention order.
    pub builtins: Vec<String>,
}

/// The compiled entry points, by kind.
#[derive(Debug)]
pub struct CasmContractEntryPoints {
    pub external: Vec<CasmContractEntryPoint>,
    pub l1_handler: Vec<CasmContractEntryPoint>,
    pub constructor: Vec<CasmContractEntryPoint>,
}

/// The name of the generic type that a type applies, empty when it is not in the table.
pub open spec fn generic_name_at(decls: Seq<crate::types::TypeDeclaration>, ty: ConcreteTypeId) -> Seq<char> {
    match long_id_at(decls, ty) {
        Some(l) => l.generic_id.name@,
        None => Seq::empty(),
    }
}

/// The generic types that may be passed implicitly to an entry function.
pub open spec fn is_builtin_name(n: Seq<char>) -> bool {
    ||| n == "RangeCheck"@
    ||| n == "Bitwise"@
    ||| n == "Pedersen"@
    ||| n == "EcOp"@
    ||| n == "Poseidon"@
    ||| n == "SegmentArena"@
    ||| n == "GasBuiltin"@
    ||| n == "System"@
}

pub open spec fn spec_is_builtin(decls: Seq<crate::types::TypeDeclaration>, ty: ConcreteTypeId) -> bool {
    long_id_at(decls, ty) is Some && is_builtin_name(generic_name_at(decls, ty))
}

/// The first type of `s` that is not a builtin, if any.
pub open spec fn first_non_builtin(decls: Seq<crate::types::TypeDeclaration>, s: Seq<ConcreteTypeId>) -> Option<ConcreteTypeId>
    decreases s.len(),
{
    if s.len() == 0 {
        None
    } else if !spec_is_builtin(decls, s[0]) {
        Some(s[0])
    } else {
        first_non_builtin(decls, s.skip(1))
    }
}

/// What checking function `idx` of the program as an entry function gives:
/// its code offset and the types of its declared builtins, or the error.
pub open spec fn entry_point_outcome(
    program: Program,
    offsets: Seq<usize>,
    costs: Seq<Option<i64>>,
    idx: usize,
) -> Result<(usize, Seq<ConcreteTypeId>), StarknetSierraCompilationError> {
    let decls = program.type_declarations@;
    if idx >= program.funcs@.len() {
        Err(StarknetSierraCompilationError::EntryPointError)
    } else {
        let f = program.funcs@[idx as int];
        let params = f.signature.param_types@;
        let rets = f.signature.ret_types@;
        if rets.len() < 3 {
            Err(StarknetSierraCompilationError::InvalidEntryPointSignatureMissingArgs)
        } else if params.len() == 0 || !spec_is_felt252_span(decls, params.last()) {
            Err(StarknetSierraCompilationError::InvalidEntryPointSignature)
        } else if params.drop_last() != rets.drop_last() {
            Err(StarknetSierraCompilationError::InvalidEntryPointSignature)
        } else if !spec_is_valid_entry_point_return_type(decls, rets.last()) {
            Err(StarknetSierraCompilationError::InvalidEntryPointSignature)
        } else if first_non_builtin(decls, params.drop_last()) is Some {
            Err(StarknetSierraCompilationError::InvalidBuiltinType(
                first_non_builtin(decls, params.drop_last())->Some_0,
            ))
        } else {
            let with_gas = params.drop_last().drop_last();
            if !has_generic(decls, params.drop_last().last(), "System"@) || !has_generic(
                decls,
                with_gas.last(),
                "GasBuiltin"@,
            ) {
                Err(StarknetSierraCompilationError::InvalidEntryPointSignatureWrongBuiltinsOrder)
            } else if f.entry_point >= offsets.len() {
                Err(StarknetSierraCompilationError::EntryPointError)
            } else if idx >= costs.len() || costs[idx as int] != Some(ENTRY_POINT_COST as i64) {
                Err(StarknetSierraCompilationError::EntryPointCostMismatch)
            } else {
                Ok((offsets[f.entry_point as int], with_gas.drop_last()))
            }
        }
    }
}

/// The compiled entry point `c` is what the outcome `Ok((offset, tys))` for `ep` describes.
pub open spec fn describes(
    c: CasmContractEntryPoint,
    ep: ContractEntryPoint,
    decls: Seq<crate::types::TypeDeclaration>,
    offset: usize,
    tys: Seq<ConcreteTypeId>,
) -> bool {
    &&& c.selector.bytes@ == ep.selector.bytes@
    &&& c.offset == offset
    &&& c.builtins@.len() == tys.len()
    &&& forall|i: int| 0 <= i < tys.len() ==> #[trigger] c.builtins@[i]@ == snake_case_of(generic_name_at(decls, tys[i]))
}

/// Whether the type is one of the builtins that an entry function may take.
fn is_builtin(resolver: &TypeResolver, ty: &ConcreteTypeId) -> (r: bool)
    ensures
        r == spec_is_builtin(resolver.decls(), *ty),
{
    match resolver.get_long_id(ty) {
        Some(long_id) => {
            let g = &long_id.generic_id;
            crate::types::generic_id_is(g, "RangeCheck") || crate::types::generic_id_is(g, "Bitwise")
                || crate::types::generic_id_is(g, "Pedersen") || crate::types::generic_id_is(g, "EcOp")
                || crate::types::generic_id_is(g, "Poseidon") || crate::types::generic_id_is(
                g,
                "SegmentArena",
            ) || crate::types::generic_id_is(g, "GasBuiltin") || crate::types::generic_id_is(g, "System")
        },
        None => false,
    }
}

/// The first of the first `n` types of `s` that is not a builtin.
fn find_non_builtin(resolver: &TypeResolver, s: &Vec<ConcreteTypeId>, n: usize) -> (r: Option<ConcreteTypeId>)
    requires
        n <= s@.len(),
    ensures
        r == first_non_builtin(resolver.decls(), s@.subrange(0, n as int)),
{
    let ghost decls = resolver.decls();
    let ghost full = s@.subrange(0, n as int);
    assert(full.skip(0) =~= full);
    let mut i: usize = 0;
    while i < n
        invariant
            i <= n <= s@.len(),
            decls == resolver.decls(),
            full == s@.subrange(0, n as int),
            first_non_builtin(decls, full) == first_non_builtin(decls, full.skip(i as int)),
        decreases n - i,
    {
        let ty = s[i];
        assert(full.skip(i as int)[0] == ty);
        if !is_builtin(resolver, &ty) {
            return Some(ty);
        }
        assert(full.skip(i as int).skip(1) =~= full.skip(i + 1));
        i = i + 1;
    }
    None
}

/// Whether the first `n` types of `a` and of `b` are the same.
fn same_prefix(a: &Vec<ConcreteTypeId>, b: &Vec<ConcreteTypeId>, n: usize) -> (r: bool)
    requires
        n <= a@.len(),
        n <= b@.len(),
    ensures
        r == (a@.subrange(0, n as int) == b@.subrange(0, n as int)),
{
    let mut i: usize = 0;
    while i < n
        invariant
            i <= n <= a@.len(),
            n <= b@.len(),
            a@.subrange(0, i as int) == b@.subrange(0, i as int),
        decreases n - i,
    {
        if a[i] != b[i] {
            assert(a@.subrange(0, n as int)[i as int] != b@.subrange(0, n as int)[i as int]);
            return false;
        }
        assert(a@.subrange(0, i + 1) =~= a@.subrange(0, i as int).push(a@[i as int]));
        assert(b@.subrange(0, i + 1) =~= b@.subrange(0, i as int).push(b@[i as int]));
        i = i + 1;
    }
    true
}

/// Checks function `ep.function_idx` of the program against the entry-point
/// calling convention, `[builtins.., gas, system, Span<felt252>]` to
/// `[builtins.., gas, system, PanicResult]`, and compiles the entry point.
pub fn as_casm_entry_point(
    program: &Program,
    offsets: &Vec<usize>,
    costs: &Vec<Option<i64>>,
    ep: &ContractEntryPoint,
) -> (r: Result<CasmContractEntryPoint, StarknetSierraCompilationError>)
    ensures
        match entry_point_outcome(*program, offsets@, costs@, ep.function_idx) {
            Ok((offset, tys)) => r is Ok && describes(r->Ok_0, *ep, program.type_declarations@, offset, tys),
            Err(e) => r == Err::<CasmContractEntryPoint, StarknetSierraCompilationError>(e),
        },
{
    if ep.function_idx >= program.funcs.len() {
        return Err(StarknetSierraCompilationError::EntryPointError);
    }
    let function = &program.funcs[ep.function_idx];
    let params = &function.signature.param_types;
    let rets = &function.signature.ret_types;
    let resolver = TypeResolver { type_decl: program.type_declarations.as_slice() };
    if rets.len() < 3 {
        return Err(StarknetSierraCompilationError::InvalidEntryPointSignatureMissingArgs);
    }
    if params.len() == 0 || !resolver.is_felt252_span(&params[params.len() - 1]) {
        return Err(StarknetSierraCompilationError::InvalidEntryPointSignature);
    }
    let n = params.len() - 1;
    assert(params@.drop_last() =~= params@.subrange(0, n as int));
    assert(rets@.drop_last() =~= rets@.subrange(0, rets@.len() - 1));
    if n != rets.len() - 1 || !same_prefix(params, rets, n) {
        return Err(StarknetSierraCompilationError::InvalidEntryPointSignature);
    }
    if !resolver.is_valid_entry_point_return_type(&rets[rets.len() - 1]) {
        return Err(StarknetSierraCompilationError::InvalidEntryPointSignature);
    }
    if let Some(ty) = find_non_builtin(&resolver, params, n) {
        return Err(StarknetSierraCompilationError::InvalidBuiltinType(ty));
    }
    // Here n >= 2: the builtins are as long as the returned ones.
    let system_ty = params[n - 1];
    let gas_ty = params[n - 2];
    if !resolver.has_generic_id(&system_ty, "System") || !resolver.has_generic_id(&gas_ty, "GasBuiltin") {
        return Err(StarknetSierraCompilationError::InvalidEntryPointSignatureWrongBuiltinsOrder);
    }
    if function.entry_point >= offsets.len() {
        return Err(StarknetSierraCompilationError::EntryPointError);
    }
    let expected: i64 = ENTRY_POINT_COST as i64;
    if ep.function_idx >= costs.len() || costs[ep.function_idx] != Some(expected) {
        return Err(StarknetSierraCompilationError::EntryPointCostMismatch);
    }
    let ghost tys = params@.drop_last().drop_last().drop_last();
    let mut builtins: Vec<String> = Vec::new();
    let mut i: usize = 0;
    while i < n - 2
        invariant
            n == params@.len() - 1,
            2 <= n,
            i <= n - 2,
            tys == params@.subrange(0, n - 2),
            resolver.decls() == program.type_declarations@,
            builtins@.len() == i,
            forall|j: int| 0 <= j < i ==> #[trigger] builtins@[j]@ == snake_case_of(
                generic_name_at(program.type_declarations@, tys[j]),
            ),
        decreases n - 2 - i,
    {
        let ty = params[i];
        let name = match resolver.get_long_id(&ty) {
            Some(long_id) => to_snake_case(&long_id.generic_id.name),
            // Not reached: every builtin type resolved above.
            None => to_snake_case(&String::new()),
        };
        builtins.push(name);
        i = i + 1;
    }
    Ok(CasmContractEntryPoint {
        selector: ep.selector.duplicate(),
        offset: offsets[function.entry_point],
        builtins,
    })
}

} // verus!
