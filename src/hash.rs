//! The content hash of a compiled contract class.
use vstd::prelude::*;

use vstd::string::StringSliceAdditionalSpecFns;

use crate::casm_class::{assembled_from, group_describes, CasmContractClass, CompiledProgram};
use crate::entry_point::{describes, entry_point_outcome};
use crate::program::{ContractClass, ContractEntryPoint, DecodedProgram, Program};
use crate::entry_point::CasmContractEntryPoint;
use crate::felt::{be_value, big_lt, felt252_prime, field_prime, BigNat};

verus! {

/// A name for the Poseidon hash that starknet-crypto computes of a sequence of
/// field elements.
pub uninterp spec fn poseidon_of(values: Seq<nat>) -> nat;

pub open spec fn values_of(s: Seq<BigNat>) -> Seq<nat> {
    s.map_values(|b: BigNat| b.value())
}

/// Relies on `starknet_crypto::poseidon_hash_many`, with each input made a
/// `FieldElement` by `from_byte_slice_be`, which fails on a value that is not
/// below the prime. The hash is itself a field element.
#[verifier::external_body]
fn poseidon_hash_many(values: &Vec<BigNat>) -> (r: BigNat)
    requires
        forall|i: int| 0 <= i < values@.len() ==> #[trigger] values@[i].value() < field_prime(),
    ensures
        r.value() == poseidon_of(values_of(values@)),
        r.value() < field_prime(),
{
    let elements: Vec<starknet_crypto::FieldElement> = values
        .iter()
        .map(|b| {
            let be = num_bigint::BigUint::from_bytes_be(&b.bytes).to_bytes_be();
            starknet_crypto::FieldElement::from_byte_slice_be(&be).unwrap()
        })
        .collect();
    BigNat { bytes: starknet_crypto::poseidon_hash_many(&elements).to_bytes_be().to_vec() }
}

/// Relies on `From<usize>` of starknet-crypto's `FieldElement`: the same number
/// as a field element.
#[verifier::external_body]
fn felt_from_usize(n: usize) -> (r: BigNat)
    ensures
        r.value() == n as nat,
{
    BigNat { bytes: starknet_crypto::FieldElement::from(n).to_bytes_be().to_vec() }
}

/// The field element that a short string stands for: its UTF-8 bytes, big-endian.
pub open spec fn short_string_value(s: Seq<char>) -> nat {
    be_value(vstd::utf8::encode_utf8(s))
}

pub open spec fn builtin_values(builtins: Seq<String>) -> Seq<nat> {
    builtins.map_values(|b: String| short_string_value(b@))
}

/// The three elements that one entry point contributes to its group's hash.
pub open spec fn entry_point_elements(ep: CasmContractEntryPoint) -> Seq<nat> {
    seq![ep.selector.value(), ep.offset as nat, poseidon_of(builtin_values(ep.builtins@))]
}

pub open spec fn entry_points_elements(eps: Seq<CasmContractEntryPoint>) -> Seq<nat>
    decreases eps.len(),
{
    if eps.len() == 0 {
        Seq::empty()
    } else {
        entry_points_elements(eps.drop_last()) + entry_point_elements(eps.last())
    }
}

pub open spec fn entry_points_hash_value(eps: Seq<CasmContractEntryPoint>) -> nat {
    poseidon_of(entry_points_elements(eps))
}

/// The bytes of the domain tag `COMPILED_CLASS_V1`.
pub open spec fn class_tag_bytes() -> Seq<u8> {
    seq![67u8, 79, 77, 80, 73, 76, 69, 68, 95, 67, 76, 65, 83, 83, 95, 86, 49]
}

/// The hash of a compiled class: the domain tag, then the hashes of the
/// external, L1-handler and constructor entry points, then that of the bytecode.
pub open spec fn class_hash_value(c: CasmContractClass) -> nat {
    poseidon_of(
        seq![
            be_value(class_tag_bytes()),
            entry_points_hash_value(c.entry_points_by_type.external@),
            entry_points_hash_value(c.entry_points_by_type.l1_handler@),
            entry_points_hash_value(c.entry_points_by_type.constructor@),
            poseidon_of(values_of(c.bytecode@)),
        ],
    )
}

/// Every value that the hash reads is a field element.
pub open spec fn entry_points_hashable(eps: Seq<CasmContractEntryPoint>) -> bool {
    forall|i: int| 0 <= i < eps.len() ==> {
        &&& (#[trigger] eps[i]).selector.value() < field_prime()
        &&& forall|j: int| 0 <= j < eps[i].builtins@.len() ==> short_string_value(
            #[trigger] eps[i].builtins@[j]@,
        ) < field_prime()
    }
}

pub open spec fn hashable(c: CasmContractClass) -> bool {
    &&& forall|i: int| 0 <= i < c.bytecode@.len() ==> #[trigger] c.bytecode@[i].value() < field_prime()
    &&& entry_points_hashable(c.entry_points_by_type.external@)
    &&& entry_points_hashable(c.entry_points_by_type.l1_handler@)
    &&& entry_points_hashable(c.entry_points_by_type.constructor@)
}

/// The field element of a short string.
fn short_string_felt(s: &String) -> (r: BigNat)
    ensures
        r.value() == short_string_value(s@),
{
    let b = s.as_str().as_bytes();
    BigNat { bytes: vstd::slice::slice_to_vec(b) }
}

/// Whether the selectors and builtin names of a group are field elements.
fn entry_points_in_field(entry_points: &Vec<CasmContractEntryPoint>, prime: &BigNat) -> (r: bool)
    requires
        prime.value() == field_prime(),
    ensures
        r == entry_points_hashable(entry_points@),
{
    let mut i: usize = 0;
    while i < entry_points.len()
        invariant
            prime.value() == field_prime(),
            i <= entry_points@.len(),
            entry_points_hashable(entry_points@.subrange(0, i as int)),
        decreases entry_points@.len() - i,
    {
        let ep = &entry_points[i];
        if !big_lt(&ep.selector, prime) {
            assert(!entry_points_hashable(entry_points@) ) by {
                assert(entry_points@[i as int] == *ep);
            }
            return false;
        }
        let mut j: usize = 0;
        while j < ep.builtins.len()
            invariant
                prime.value() == field_prime(),
                i < entry_points@.len(),
                *ep == entry_points@[i as int],
                j <= ep.builtins@.len(),
                forall|k: int| 0 <= k < j ==> short_string_value(#[trigger] ep.builtins@[k]@) < field_prime(),
            decreases ep.builtins@.len() - j,
        {
            if !big_lt(&short_string_felt(&ep.builtins[j]), prime) {
                assert(!entry_points_hashable(entry_points@)) by {
                    assert(entry_points@[i as int] == *ep);
                    assert(short_string_value(entry_points@[i as int].builtins@[j as int]@) >= field_prime());
                }
                return false;
            }
            j = j + 1;
        }
        proof {
            let prev = entry_points@.subrange(0, i as int);
            let next = entry_points@.subrange(0, i + 1);
            assert forall|k: int| 0 <= k < next.len() implies {
                &&& (#[trigger] next[k]).selector.value() < field_prime()
                &&& forall|m: int| 0 <= m < next[k].builtins@.len() ==> short_string_value(
                    #[trigger] next[k].builtins@[m]@,
                ) < field_prime()
            } by {
                if k < i {
                    assert(next[k] == prev[k]);
                }
            }
        }
        i = i + 1;
    }
    assert(entry_points@.subrange(0, i as int) =~= entry_points@);
    true
}

proof fn tag_value_in_field()
    ensures
        be_value(class_tag_bytes()) < field_prime(),
{
    crate::felt::lemma_short_value_in_field(class_tag_bytes());
}

/// The hash of one group of entry points.
pub fn entry_points_hash(entry_points: &Vec<CasmContractEntryPoint>) -> (r: BigNat)
    requires
        entry_points_hashable(entry_points@),
    ensures
        r.value() == entry_points_hash_value(entry_points@),
        r.value() < field_prime(),
{
    let mut elements: Vec<BigNat> = Vec::new();
    let mut i: usize = 0;
    while i < entry_points.len()
        invariant
            i <= entry_points@.len(),
            entry_points_hashable(entry_points@),
            values_of(elements@) == entry_points_elements(entry_points@.subrange(0, i as int)),
            forall|k: int| 0 <= k < elements@.len() ==> #[trigger] elements@[k].value() < field_prime(),
        decreases entry_points@.len() - i,
    {
        let ep = &entry_points[i];
        let mut names: Vec<BigNat> = Vec::new();
        let mut j: usize = 0;
        while j < ep.builtins.len()
            invariant
                i < entry_points@.len(),
                *ep == entry_points@[i as int],
                entry_points_hashable(entry_points@),
                j <= ep.builtins@.len(),
                values_of(names@) == builtin_values(ep.builtins@.subrange(0, j as int)),
                forall|k: int| 0 <= k < names@.len() ==> #[trigger] names@[k].value() < field_prime(),
            decreases ep.builtins@.len() - j,
        {
            let v = short_string_felt(&ep.builtins[j]);
            assert(short_string_value(ep.builtins@[j as int]@) < field_prime());
            let ghost prev = names@;
            names.push(v);
            proof {
                let bs = ep.builtins@;
                assert(bs.subrange(0, j + 1) =~= bs.subrange(0, j as int).push(bs[j as int]));
                assert(builtin_values(bs.subrange(0, j + 1)) =~= builtin_values(bs.subrange(0, j as int)).push(short_string_value(bs[j as int]@)));
                assert(values_of(names@) =~= values_of(prev).push(v.value()));
            }
            j = j + 1;
        }
        assert(ep.builtins@.subrange(0, j as int) =~= ep.builtins@);
        let builtins_hash = poseidon_hash_many(&names);
        let ghost before = elements@;
        elements.push(ep.selector.duplicate());
        elements.push(felt_from_usize(ep.offset));
        elements.push(builtins_hash);
        proof {
            let eps = entry_points@.subrange(0, i + 1);
            assert(eps.drop_last() =~= entry_points@.subrange(0, i as int));
            assert(values_of(elements@) =~= values_of(before) + entry_point_elements(*ep));
            assert(field_prime() > 0xffff_ffff_ffff_ffffnat);
        }
        i = i + 1;
    }
    assert(entry_points@.subrange(0, i as int) =~= entry_points@);
    poseidon_hash_many(&elements)
}

impl CasmContractClass {
    /// Whether every value that the hash reads is a field element, so that
    /// [`CasmContractClass::compiled_class_hash`] may be called.
    pub fn is_hashable(&self) -> (r: bool)
        ensures
            r == hashable(*self),
    {
        let prime = felt252_prime();
        let mut i: usize = 0;
        while i < self.bytecode.len()
            invariant
                prime.value() == field_prime(),
                i <= self.bytecode@.len(),
                forall|j: int| 0 <= j < i ==> #[trigger] self.bytecode@[j].value() < field_prime(),
            decreases self.bytecode@.len() - i,
        {
            if !big_lt(&self.bytecode[i], &prime) {
                return false;
            }
            i = i + 1;
        }
        entry_points_in_field(&self.entry_points_by_type.external, &prime)
            && entry_points_in_field(&self.entry_points_by_type.l1_handler, &prime)
            && entry_points_in_field(&self.entry_points_by_type.constructor, &prime)
    }

    /// Returns the hash value of the compiled contract class.
    pub fn compiled_class_hash(&self) -> (r: BigNat)
        requires
            hashable(*self),
        ensures
            r.value() == class_hash_value(*self),
            r.value() < field_prime(),
    {
        // Hash each component separately.
        let external_funcs_hash = entry_points_hash(&self.entry_points_by_type.external);
        let l1_handlers_hash = entry_points_hash(&self.entry_points_by_type.l1_handler);
        let constructors_hash = entry_points_hash(&self.entry_points_by_type.constructor);
        let bytecode_hash = poseidon_hash_many(&self.bytecode);
        let tag = BigNat {
            bytes: vec![67u8, 79, 77, 80, 73, 76, 69, 68, 95, 67, 76, 65, 83, 83, 95, 86, 49],
        };
        assert(tag.bytes@ =~= class_tag_bytes());
        proof { tag_value_in_field(); }
        let parts = vec![tag, external_funcs_hash, l1_handlers_hash, constructors_hash, bytecode_hash];
        assert(values_of(parts@) =~= seq![
            be_value(class_tag_bytes()),
            entry_points_hash_value(self.entry_points_by_type.external@),
            entry_points_hash_value(self.entry_points_by_type.l1_handler@),
            entry_points_hash_value(self.entry_points_by_type.constructor@),
            poseidon_of(values_of(self.bytecode@)),
        ]);
        poseidon_hash_many(&parts)
    }
}

/// Two groups of entry points that agree on every value that the hash reads.
pub open spec fn same_hashed_content(a: Seq<CasmContractEntryPoint>, b: Seq<CasmContractEntryPoint>) -> bool {
    &&& a.len() == b.len()
    &&& forall|k: int| 0 <= k < a.len() ==> {
        &&& (#[trigger] a[k]).selector.value() == b[k].selector.value()
        &&& a[k].offset == b[k].offset
        &&& a[k].builtins@.len() == b[k].builtins@.len()
        &&& forall|i: int| 0 <= i < a[k].builtins@.len() ==> (#[trigger] a[k].builtins@[i])@ == b[k].builtins@[i]@
    }
}

proof fn lemma_same_content_same_hash(a: Seq<CasmContractEntryPoint>, b: Seq<CasmContractEntryPoint>)
    requires
        same_hashed_content(a, b),
    ensures
        entry_points_elements(a) == entry_points_elements(b),
    decreases a.len(),
{
    if a.len() > 0 {
        assert(same_hashed_content(a.drop_last(), b.drop_last())) by {
            assert forall|k: int| 0 <= k < a.drop_last().len() implies #[trigger] a.drop_last()[k] == a[k] && b.drop_last()[k] == b[k] by {}
        }
        lemma_same_content_same_hash(a.drop_last(), b.drop_last());
        let x = a.last();
        let y = b.last();
        assert(x == a[a.len() - 1]);
        assert(builtin_values(x.builtins@) =~= builtin_values(y.builtins@)) by {
            assert forall|i: int| 0 <= i < x.builtins@.len() implies x.builtins@[i]@ == y.builtins@[i]@ by {
                assert(x.builtins@[i]@ == b[a.len() - 1].builtins@[i]@);
            }
        }
        assert(entry_point_elements(x) =~= entry_point_elements(y));
    }
}

/// Two compiled classes with the same bytecode values and the same entry
/// points have the same hash, whatever their hints or rendered hints are.
pub proof fn lemma_hash_reads_bytecode_and_entry_points(a: CasmContractClass, b: CasmContractClass)
    requires
        values_of(a.bytecode@) == values_of(b.bytecode@),
        same_hashed_content(a.entry_points_by_type.external@, b.entry_points_by_type.external@),
        same_hashed_content(a.entry_points_by_type.l1_handler@, b.entry_points_by_type.l1_handler@),
        same_hashed_content(a.entry_points_by_type.constructor@, b.entry_points_by_type.constructor@),
    ensures
        class_hash_value(a) == class_hash_value(b),
{
    lemma_same_content_same_hash(a.entry_points_by_type.external@, b.entry_points_by_type.external@);
    lemma_same_content_same_hash(a.entry_points_by_type.l1_handler@, b.entry_points_by_type.l1_handler@);
    lemma_same_content_same_hash(a.entry_points_by_type.constructor@, b.entry_points_by_type.constructor@);
}

proof fn lemma_described_groups_agree(
    p: Program,
    offsets: Seq<usize>,
    costs: Seq<Option<i64>>,
    s: Seq<ContractEntryPoint>,
    a: Seq<CasmContractEntryPoint>,
    b: Seq<CasmContractEntryPoint>,
)
    requires
        group_describes(p, offsets, costs, s, a),
        group_describes(p, offsets, costs, s, b),
    ensures
        same_hashed_content(a, b),
{
    assert forall|k: int| 0 <= k < a.len() implies {
        &&& (#[trigger] a[k]).selector.value() == b[k].selector.value()
        &&& a[k].offset == b[k].offset
        &&& a[k].builtins@.len() == b[k].builtins@.len()
        &&& forall|i: int| 0 <= i < a[k].builtins@.len() ==> (#[trigger] a[k].builtins@[i])@ == b[k].builtins@[i]@
    } by {
        let o = entry_point_outcome(p, offsets, costs, s[k].function_idx);
        assert(describes(a[k], s[k], p.type_declarations@, o->Ok_0.0, o->Ok_0.1));
        assert(describes(b[k], s[k], p.type_declarations@, o->Ok_0.0, o->Ok_0.1));
    }
}

/// Compiling the same contract class with the same collaborator results gives
/// the same bytecode, hints and entry points and the same hash, whatever hints
/// rendered for the Python VM are handed in; with the same rendered hints the
/// rendered hints of the two classes are the same too.
pub proof fn lemma_compilation_deterministic(
    a: CasmContractClass,
    b: CasmContractClass,
    cc: ContractClass,
    decoded: Result<DecodedProgram, String>,
    costs: Result<Vec<Option<i64>>, String>,
    compiled: Result<CompiledProgram, String>,
    rendered_a: Option<Vec<(usize, Vec<String>)>>,
    rendered_b: Option<Vec<(usize, Vec<String>)>>,
)
    requires
        assembled_from(a, cc, decoded, costs, compiled, rendered_a),
        assembled_from(b, cc, decoded, costs, compiled, rendered_b),
    ensures
        values_of(a.bytecode@) == values_of(b.bytecode@),
        a.hints == b.hints,
        rendered_a == rendered_b ==> a.pythonic_hints == b.pythonic_hints,
        same_hashed_content(a.entry_points_by_type.external@, b.entry_points_by_type.external@),
        same_hashed_content(a.entry_points_by_type.l1_handler@, b.entry_points_by_type.l1_handler@),
        same_hashed_content(a.entry_points_by_type.constructor@, b.entry_points_by_type.constructor@),
        class_hash_value(a) == class_hash_value(b),
{
    let p = decoded->Ok_0.program;
    let offsets = compiled->Ok_0.statement_code_offsets@;
    let k = costs->Ok_0@;
    let eps = cc.entry_points_by_type;
    assert(values_of(a.bytecode@) =~= values_of(b.bytecode@));
    lemma_described_groups_agree(p, offsets, k, eps.external@, a.entry_points_by_type.external@, b.entry_points_by_type.external@);
    lemma_described_groups_agree(p, offsets, k, eps.l1_handler@, a.entry_points_by_type.l1_handler@, b.entry_points_by_type.l1_handler@);
    lemma_described_groups_agree(p, offsets, k, eps.constructor@, a.entry_points_by_type.constructor@, b.entry_points_by_type.constructor@);
    lemma_hash_reads_bytecode_and_entry_points(a, b);
}

} // verus!
