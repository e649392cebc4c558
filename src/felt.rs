//! Arbitrary-precision naturals held as big-endian bytes, and the Stark field.
use vstd::prelude::*;

use num_integer::Integer;

verus! {

/// The numeric value of a big-endian byte string.
pub open spec fn be_value(s: Seq<u8>) -> nat
    decreases s.len(),
{
    if s.len() == 0 {
        0
    } else {
        be_value(s.drop_last()) * 256 + s.last() as nat
    }
}

/// The prime of the Stark field: 2^251 + 17 * 2^192 + 1.
pub open spec fn field_prime() -> nat {
    3618502788666131213697322783095070105623107215331596699973092056135872020481nat
}

/// A non-negative integer of any size, stored as big-endian bytes
/// (leading zero bytes are allowed and do not change the value).
#[derive(Debug)]
pub struct BigNat {
    pub bytes: Vec<u8>,
}

impl BigNat {
    pub open spec fn value(&self) -> nat {
        be_value(self.bytes@)
    }

    pub fn from_bytes_be(bytes: Vec<u8>) -> (r: BigNat)
        ensures
            r.bytes@ == bytes@,
    {
        BigNat { bytes }
    }

    pub fn duplicate(&self) -> (r: BigNat)
        ensures
            r.bytes@ == self.bytes@,
            r.value() == self.value(),
    {
        BigNat { bytes: self.bytes.clone() }
    }
}

/// A signed integer of any size, as sign and magnitude.
#[derive(Debug)]
pub struct SignedBig {
    pub negative: bool,
    pub magnitude: BigNat,
}

impl SignedBig {
    pub open spec fn value(&self) -> int {
        if self.negative {
            -(self.magnitude.value() as int)
        } else {
            self.magnitude.value() as int
        }
    }
}

/// Relies on `Felt252::prime` of cairo-felt: the modulus of the field.
#[verifier::external_body]
pub(crate) fn felt252_prime() -> (r: BigNat)
    ensures
        r.value() == field_prime(),
{
    BigNat { bytes: cairo_felt::Felt252::prime().to_bytes_be() }
}

/// Relies on `Integer::div_rem` of num-integer on `BigUint`: the remainder of
/// the Euclidean division. It panics on a zero divisor.
#[verifier::external_body]
fn big_rem(a: &BigNat, m: &BigNat) -> (r: BigNat)
    requires
        m.value() > 0,
    ensures
        r.value() == a.value() % m.value(),
{
    let a = num_bigint::BigUint::from_bytes_be(&a.bytes);
    let m = num_bigint::BigUint::from_bytes_be(&m.bytes);
    let (_q, r) = a.div_rem(&m);
    BigNat { bytes: r.to_bytes_be() }
}

/// Relies on `BigUint`'s subtraction of num-bigint, which panics when the
/// result would be negative.
#[verifier::external_body]
fn big_sub(a: &BigNat, b: &BigNat) -> (r: BigNat)
    requires
        b.value() <= a.value(),
    ensures
        r.value() == a.value() - b.value(),
{
    let a = num_bigint::BigUint::from_bytes_be(&a.bytes);
    let b = num_bigint::BigUint::from_bytes_be(&b.bytes);
    BigNat { bytes: (&a - &b).to_bytes_be() }
}

/// Relies on `Ord::cmp` of num-bigint's `BigUint`: the order of the values.
#[verifier::external_body]
pub(crate) fn big_cmp(a: &BigNat, b: &BigNat) -> (r: core::cmp::Ordering)
    ensures
        (r == core::cmp::Ordering::Less) == (a.value() < b.value()),
        (r == core::cmp::Ordering::Equal) == (a.value() == b.value()),
        (r == core::cmp::Ordering::Greater) == (a.value() > b.value()),
{
    num_bigint::BigUint::from_bytes_be(&a.bytes).cmp(&num_bigint::BigUint::from_bytes_be(&b.bytes))
}

/// Whether two naturals have the same value.
pub fn big_eq(a: &BigNat, b: &BigNat) -> (r: bool)
    ensures
        r == (a.value() == b.value()),
{
    match big_cmp(a, b) {
        core::cmp::Ordering::Equal => true,
        _ => false,
    }
}

/// Whether `a` is strictly below `b`.
pub fn big_lt(a: &BigNat, b: &BigNat) -> (r: bool)
    ensures
        r == (a.value() < b.value()),
{
    match big_cmp(a, b) {
        core::cmp::Ordering::Less => true,
        _ => false,
    }
}

/// The stored form of an assembled word: its magnitude reduced modulo the
/// prime, negated in the field when the word is negative (zero stays zero).
pub open spec fn canonical_word(w: SignedBig) -> nat {
    let r = w.magnitude.value() % field_prime();
    if w.negative && r != 0 {
        (field_prime() - r) as nat
    } else {
        r
    }
}

/// Reduces an assembled word into the field.
pub fn canonicalize_word(w: &SignedBig, prime: &BigNat) -> (r: BigNat)
    requires
        prime.value() == field_prime(),
    ensures
        r.value() == canonical_word(*w),
{
    let reminder = big_rem(&w.magnitude, prime);
    let zero = BigNat { bytes: Vec::new() };
    if w.negative && !big_eq(&reminder, &zero) {
        big_sub(prime, &reminder)
    } else {
        reminder
    }
}

/// Reduces every assembled word into the field, keeping their order.
pub fn canonicalize_bytecode(words: &Vec<SignedBig>, prime: &BigNat) -> (r: Vec<BigNat>)
    requires
        prime.value() == field_prime(),
    ensures
        r@.len() == words@.len(),
        forall|i: int| 0 <= i < r@.len() ==> #[trigger] r@[i].value() == canonical_word(words@[i]),
{
    let mut out: Vec<BigNat> = Vec::new();
    let mut i: usize = 0;
    while i < words.len()
        invariant
            i <= words@.len(),
            prime.value() == field_prime(),
            out@.len() == i,
            forall|j: int| 0 <= j < i ==> #[trigger] out@[j].value() == canonical_word(words@[j]),
        decreases words@.len() - i,
    {
        let w = canonicalize_word(&words[i], prime);
        out.push(w);
        i = i + 1;
    }
    out
}

/// A canonicalized word lies in the field and is congruent to the assembled word.
pub proof fn lemma_canonical_word_in_field(w: SignedBig)
    ensures
        0 <= canonical_word(w) < field_prime(),
        canonical_word(w) as int == w.value() % (field_prime() as int),
{
    let p = field_prime() as int;
    let m = w.magnitude.value() as int;
    let r = m % p;
    if w.negative && r == 0 {
        assert(-m == (-(m / p)) * p) by (nonlinear_arith)
            requires r == m % p, p > 0, m >= 0, m == (m / p) * p + r, r == 0;
        vstd::arithmetic::div_mod::lemma_fundamental_div_mod_converse(-m, p, -(m / p), 0);
    } else if w.negative {
        assert(-m == (-(m / p) - 1) * p + (p - r)) by (nonlinear_arith)
            requires r == m % p, p > 0, m >= 0, m == (m / p) * p + r;
        vstd::arithmetic::div_mod::lemma_fundamental_div_mod_converse(-m, p, -(m / p) - 1, p - r);
    }
}

/// 256 to the power `n`.
pub open spec fn byte_bound(n: nat) -> nat
    decreases n,
{
    if n == 0 {
        1
    } else {
        byte_bound((n - 1) as nat) * 256
    }
}

/// A value of `n` bytes is below 256^n.
pub proof fn lemma_be_value_bound(s: Seq<u8>)
    ensures
        be_value(s) < byte_bound(s.len()),
    decreases s.len(),
{
    if s.len() > 0 {
        lemma_be_value_bound(s.drop_last());
        let v = be_value(s.drop_last());
        let b = byte_bound(s.drop_last().len());
        assert(v * 256 + s.last() < b * 256) by (nonlinear_arith)
            requires v < b, s.last() < 256;
    }
}

/// Every value of at most 31 bytes is a field element.
pub proof fn lemma_short_value_in_field(s: Seq<u8>)
    requires
        s.len() <= 31,
    ensures
        be_value(s) < field_prime(),
    decreases s.len(),
{
    lemma_be_value_bound(s);
    lemma_byte_bound_monotone(s.len(), 31);
    reveal_with_fuel(byte_bound, 32);
    assert(byte_bound(31) < field_prime());
}

proof fn lemma_byte_bound_monotone(a: nat, b: nat)
    requires
        a <= b,
    ensures
        byte_bound(a) <= byte_bound(b),
    decreases b,
{
    if a < b {
        lemma_byte_bound_monotone(a, (b - 1) as nat);
    }
}

} // verus!
