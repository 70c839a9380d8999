//! Trusted boundary to the algebra library: scalar-field arithmetic,
//! group scalar multiplication, affine conversion, window tables for
//! fixed-base multi-scalar multiplication, evaluation domains, and the
//! randomness source.
//!
//! Verus refuses a declaration of the algebra library's generic types, so
//! each outside value is held in a private field of an opaque struct of
//! the library's own. Every function here wraps exactly one outside call
//! behind a contract; the uninterpreted spec functions name what those
//! calls return, as functions of their arguments alone.

use vstd::prelude::*;

use ark_bls12_381::{Fr, G1Affine, G1Projective, G2Affine, G2Projective};
use ark_ec::scalar_mul::fixed_base::FixedBase;
use ark_ec::CurveGroup;
use ark_ff::{UniformRand, Zero};
use ark_poly::{EvaluationDomain, GeneralEvaluationDomain};
use ark_serialize::CanonicalSerialize;
use ark_std::rand::rngs::StdRng;
use ark_std::rand::SeedableRng;

verus! {

/// A scalar-field element (`ark_bls12_381::Fr`), opaque to the verifier.
#[verifier::external_body]
pub struct Scalar {
    inner: Fr,
}

/// A first-group element in projective form, opaque to the verifier.
#[verifier::external_body]
pub struct G1Elem {
    inner: G1Projective,
}

/// A second-group element in projective form, opaque to the verifier.
#[verifier::external_body]
pub struct G2Elem {
    inner: G2Projective,
}

/// A first-group element in canonical affine form, opaque to the verifier.
#[verifier::external_body]
pub struct G1Point {
    inner: G1Affine,
}

/// A second-group element in canonical affine form, opaque to the verifier.
#[verifier::external_body]
pub struct G2Point {
    inner: G2Affine,
}

/// An evaluation domain over the scalar field, opaque to the verifier.
#[verifier::external_body]
pub struct Domain {
    inner: GeneralEvaluationDomain<Fr>,
}

/// A window lookup table over multiples of a first-group base.
#[verifier::external_body]
pub struct G1Table {
    inner: Vec<Vec<G1Affine>>,
}

/// A window lookup table over multiples of a second-group base.
#[verifier::external_body]
pub struct G2Table {
    inner: Vec<Vec<G2Affine>>,
}

/// The randomness source consumed during setup.
#[verifier::external_body]
pub struct SetupRng {
    inner: StdRng,
}

impl Clone for Scalar {
    /// Relies on the held value being `Copy` in the algebra library.
    #[verifier::external_body]
    fn clone(&self) -> (r: Self)
        ensures
            r == *self,
    {
        Scalar { inner: self.inner }
    }
}

impl Copy for Scalar {}

impl Clone for G1Elem {
    /// Relies on the held value being `Copy` in the algebra library.
    #[verifier::external_body]
    fn clone(&self) -> (r: Self)
        ensures
            r == *self,
    {
        G1Elem { inner: self.inner }
    }
}

impl Copy for G1Elem {}

impl Clone for G2Elem {
    /// Relies on the held value being `Copy` in the algebra library.
    #[verifier::external_body]
    fn clone(&self) -> (r: Self)
        ensures
            r == *self,
    {
        G2Elem { inner: self.inner }
    }
}

impl Copy for G2Elem {}

impl Clone for G1Point {
    /// Relies on the held value being `Copy` in the algebra library.
    #[verifier::external_body]
    fn clone(&self) -> (r: Self)
        ensures
            r == *self,
    {
        G1Point { inner: self.inner }
    }
}

impl Copy for G1Point {}

impl Clone for G2Point {
    /// Relies on the held value being `Copy` in the algebra library.
    #[verifier::external_body]
    fn clone(&self) -> (r: Self)
        ensures
            r == *self,
    {
        G2Point { inner: self.inner }
    }
}

impl Copy for G2Point {}

impl Clone for Domain {
    /// Relies on the held value being `Copy` in the algebra library.
    #[verifier::external_body]
    fn clone(&self) -> (r: Self)
        ensures
            r == *self,
    {
        Domain { inner: self.inner }
    }
}

impl Copy for Domain {}

/// Bit length of the scalar-field modulus (`Fr::MODULUS_BIT_SIZE`): the
/// usable scalar bit-width for window tables.
pub const FR_BITS: usize = 255;

/// The sum of two scalars in the field.
pub uninterp spec fn fr_add_of(a: Scalar, b: Scalar) -> Scalar;

/// The product of two scalars in the field.
pub uninterp spec fn fr_mul_of(a: Scalar, b: Scalar) -> Scalar;

/// Whether a scalar is the field's additive identity.
pub uninterp spec fn fr_is_zero_of(a: Scalar) -> bool;

/// The scalar embedded from a machine integer.
pub uninterp spec fn scalar_of_u64(x: u64) -> Scalar;

/// The scalar multiple `scalar . base` in the first group.
pub uninterp spec fn g1_mul_of(base: G1Elem, scalar: Scalar) -> G1Elem;

/// The scalar multiple `scalar . base` in the second group.
pub uninterp spec fn g2_mul_of(base: G2Elem, scalar: Scalar) -> G2Elem;

/// The canonical affine form of a projective point in the first group.
pub uninterp spec fn g1_affine_of(p: G1Elem) -> G1Point;

/// The canonical affine form of a projective point in the second group.
pub uninterp spec fn g2_affine_of(p: G2Elem) -> G2Point;

/// The canonical compressed byte form of a first-group affine point.
pub uninterp spec fn g1_point_bytes_of(p: G1Point) -> Seq<u8>;

/// The canonical compressed byte form of a second-group affine point.
pub uninterp spec fn g2_point_bytes_of(p: G2Point) -> Seq<u8>;

/// Membership of a scalar in the evaluation domain's element set.
pub uninterp spec fn in_domain_of(d: Domain, x: Scalar) -> bool;

/// The evaluation domain the algebra library constructs for a target
/// size.
pub uninterp spec fn domain_of(num_coeffs: int) -> Domain;

/// The number of elements of an evaluation domain.
pub uninterp spec fn domain_size_of(d: Domain) -> int;

/// The window lookup table over multiples of a first-group base.
pub uninterp spec fn g1_window_table_of(scalar_size: int, window: int, base: G1Elem) -> G1Table;

/// The window lookup table over multiples of a second-group base.
pub uninterp spec fn g2_window_table_of(scalar_size: int, window: int, base: G2Elem) -> G2Table;

/// Relies on `core::ops::Add` for `ark_ff::Fp`: field addition, a function
/// of the two operands alone.
#[verifier::external_body]
pub(crate) fn fr_add(a: &Scalar, b: &Scalar) -> (r: Scalar)
    ensures
        r == fr_add_of(*a, *b),
{
    Scalar { inner: a.inner + b.inner }
}

/// Relies on `core::ops::Mul` for `ark_ff::Fp`: field multiplication, a
/// function of the two operands alone.
#[verifier::external_body]
pub(crate) fn fr_mul(a: &Scalar, b: &Scalar) -> (r: Scalar)
    ensures
        r == fr_mul_of(*a, *b),
{
    Scalar { inner: a.inner * b.inner }
}

/// Relies on `ark_ff::Zero::is_zero` for `ark_ff::Fp`: the zero test, a
/// function of the operand alone.
#[verifier::external_body]
pub(crate) fn fr_is_zero(a: &Scalar) -> (r: bool)
    ensures
        r == fr_is_zero_of(*a),
{
    a.inner.is_zero()
}

/// Relies on `core::cmp::PartialEq` for `ark_ff::Fp`, which compares the
/// canonical representations field by field.
#[verifier::external_body]
pub(crate) fn fr_eq(a: &Scalar, b: &Scalar) -> (r: bool)
    ensures
        r == (*a == *b),
{
    a.inner == b.inner
}

/// Relies on `core::convert::From<u64>` for `ark_ff::Fp`: the embedding of
/// a machine integer into the field, a function of the integer alone.
#[verifier::external_body]
pub(crate) fn fr_from_u64(x: u64) -> (r: Scalar)
    ensures
        r == scalar_of_u64(x),
{
    Scalar { inner: Fr::from(x) }
}

/// Relies on `rand::SeedableRng::seed_from_u64` for `StdRng`.
#[verifier::external_body]
pub(crate) fn rng_from_seed(seed: u64) -> SetupRng {
    SetupRng { inner: StdRng::seed_from_u64(seed) }
}

/// Relies on `ark_ff::UniformRand::rand`: a scalar drawn from the
/// randomness source; nothing is promised of the value.
#[verifier::external_body]
pub(crate) fn fr_rand(rng: &mut SetupRng) -> Scalar {
    Scalar { inner: Fr::rand(&mut rng.inner) }
}

/// Relies on `ark_ff::UniformRand::rand` for the first group: a group
/// element drawn from the randomness source; nothing is promised of it.
#[verifier::external_body]
pub(crate) fn g1_rand(rng: &mut SetupRng) -> G1Elem {
    G1Elem { inner: G1Projective::rand(&mut rng.inner) }
}

/// Relies on `ark_ff::UniformRand::rand` for the second group: a group
/// element drawn from the randomness source; nothing is promised of it.
#[verifier::external_body]
pub(crate) fn g2_rand(rng: &mut SetupRng) -> G2Elem {
    G2Elem { inner: G2Projective::rand(&mut rng.inner) }
}

/// Relies on `core::ops::Mul` for `ark_ec::short_weierstrass::Projective`:
/// scalar multiplication in the first group, a function of base and
/// scalar alone.
#[verifier::external_body]
pub(crate) fn g1_mul(base: &G1Elem, scalar: &Scalar) -> (r: G1Elem)
    ensures
        r == g1_mul_of(*base, *scalar),
{
    G1Elem { inner: base.inner * scalar.inner }
}

/// Relies on `core::ops::Mul` for `ark_ec::short_weierstrass::Projective`:
/// scalar multiplication in the second group, a function of base and
/// scalar alone.
#[verifier::external_body]
pub(crate) fn g2_mul(base: &G2Elem, scalar: &Scalar) -> (r: G2Elem)
    ensures
        r == g2_mul_of(*base, *scalar),
{
    G2Elem { inner: base.inner * scalar.inner }
}

/// Relies on `ark_ec::CurveGroup::into_affine`: the affine form of a
/// first-group point, a function of the point alone.
#[verifier::external_body]
pub(crate) fn g1_to_affine(p: &G1Elem) -> (r: G1Point)
    ensures
        r == g1_affine_of(*p),
{
    G1Point { inner: p.inner.into_affine() }
}

/// Relies on `ark_ec::CurveGroup::into_affine`: the affine form of a
/// second-group point, a function of the point alone.
#[verifier::external_body]
pub(crate) fn g2_to_affine(p: &G2Elem) -> (r: G2Point)
    ensures
        r == g2_affine_of(*p),
{
    G2Point { inner: p.inner.into_affine() }
}

/// Relies on `ark_ec::CurveGroup::normalize_batch`: converts each
/// first-group point of the slice to its affine form, keeping order.
#[verifier::external_body]
pub(crate) fn g1_normalize_batch(v: &Vec<G1Elem>) -> (r: Vec<G1Point>)
    ensures
        r@.len() == v@.len(),
        forall|i: int| 0 <= i < v@.len() ==> r@[i] == g1_affine_of(v@[i]),
{
    let proj: Vec<G1Projective> = v.iter().map(|e| e.inner).collect();
    G1Projective::normalize_batch(proj.as_slice())
        .into_iter()
        .map(|p| G1Point { inner: p })
        .collect()
}

/// Relies on `ark_ec::CurveGroup::normalize_batch`: converts each
/// second-group point of the slice to its affine form, keeping order.
#[verifier::external_body]
pub(crate) fn g2_normalize_batch(v: &Vec<G2Elem>) -> (r: Vec<G2Point>)
    ensures
        r@.len() == v@.len(),
        forall|i: int| 0 <= i < v@.len() ==> r@[i] == g2_affine_of(v@[i]),
{
    let proj: Vec<G2Projective> = v.iter().map(|e| e.inner).collect();
    G2Projective::normalize_batch(proj.as_slice())
        .into_iter()
        .map(|p| G2Point { inner: p })
        .collect()
}

/// Relies on `ark_serialize::CanonicalSerialize::serialize_compressed`:
/// the canonical compressed byte form of an affine point, a function of
/// the point alone; writing into a byte vector cannot fail.
#[verifier::external_body]
pub(crate) fn g1_point_bytes(p: &G1Point) -> (r: Vec<u8>)
    ensures
        r@ == g1_point_bytes_of(*p),
{
    let mut out = Vec::new();
    p.inner.serialize_compressed(&mut out).unwrap();
    out
}

/// Relies on `ark_serialize::CanonicalSerialize::serialize_compressed`:
/// as for the first group, in the second group.
#[verifier::external_body]
pub(crate) fn g2_point_bytes(p: &G2Point) -> (r: Vec<u8>)
    ensures
        r@ == g2_point_bytes_of(*p),
{
    let mut out = Vec::new();
    p.inner.serialize_compressed(&mut out).unwrap();
    out
}

/// Relies on `ark_ec::scalar_mul::fixed_base::FixedBase::get_mul_window_size`:
/// for a batch of fewer than `2^32` scalars it returns `3` below 32
/// scalars and `ceil(log2(n)) * 69 / 100` (at most 22) above.
#[verifier::external_body]
pub(crate) fn mul_window_size(num_scalars: usize) -> (r: usize)
    requires
        num_scalars <= 0xFFFF_FFFF,
    ensures
        3 <= r <= 22,
{
    FixedBase::get_mul_window_size(num_scalars)
}

/// Relies on `ark_ec::scalar_mul::fixed_base::FixedBase::get_window_table`:
/// the table of `ceil(scalar_size / window)` levels of window multiples of
/// the base, a function of its three arguments alone.
#[verifier::external_body]
pub(crate) fn g1_build_table(scalar_size: usize, window: usize, base: &G1Elem) -> (r: G1Table)
    requires
        1 <= scalar_size <= 1024,
        1 <= window <= 22,
    ensures
        r == g1_window_table_of(scalar_size as int, window as int, *base),
{
    G1Table { inner: FixedBase::get_window_table::<G1Projective>(scalar_size, window, base.inner) }
}

/// Relies on `ark_ec::scalar_mul::fixed_base::FixedBase::get_window_table`:
/// as for the first group, in the second group.
#[verifier::external_body]
pub(crate) fn g2_build_table(scalar_size: usize, window: usize, base: &G2Elem) -> (r: G2Table)
    requires
        1 <= scalar_size <= 1024,
        1 <= window <= 22,
    ensures
        r == g2_window_table_of(scalar_size as int, window as int, *base),
{
    G2Table { inner: FixedBase::get_window_table::<G2Projective>(scalar_size, window, base.inner) }
}

/// Relies on `ark_ec::scalar_mul::fixed_base::FixedBase::msm`: with a
/// table built by `get_window_table` for this base at the full scalar
/// bit-width, it returns the scalar multiple of the base for each scalar,
/// in order.
#[verifier::external_body]
#[allow(unused_variables)]
pub(crate) fn g1_windowed_batch(
    scalar_size: usize,
    window: usize,
    table: &G1Table,
    base: &G1Elem,
    scalars: &Vec<Scalar>,
) -> (r: Vec<G1Elem>)
    requires
        scalar_size == FR_BITS,
        1 <= window <= 22,
        *table == g1_window_table_of(scalar_size as int, window as int, *base),
    ensures
        r@.len() == scalars@.len(),
        forall|i: int| 0 <= i < scalars@.len() ==> r@[i] == g1_mul_of(*base, scalars@[i]),
{
    let v: Vec<Fr> = scalars.iter().map(|s| s.inner).collect();
    FixedBase::msm::<G1Projective>(scalar_size, window, table.inner.as_slice(), v.as_slice())
        .into_iter()
        .map(|p| G1Elem { inner: p })
        .collect()
}

/// Relies on `ark_ec::scalar_mul::fixed_base::FixedBase::msm`: as for the
/// first group, in the second group.
#[verifier::external_body]
#[allow(unused_variables)]
pub(crate) fn g2_windowed_batch(
    scalar_size: usize,
    window: usize,
    table: &G2Table,
    base: &G2Elem,
    scalars: &Vec<Scalar>,
) -> (r: Vec<G2Elem>)
    requires
        scalar_size == FR_BITS,
        1 <= window <= 22,
        *table == g2_window_table_of(scalar_size as int, window as int, *base),
    ensures
        r@.len() == scalars@.len(),
        forall|i: int| 0 <= i < scalars@.len() ==> r@[i] == g2_mul_of(*base, scalars@[i]),
{
    let v: Vec<Fr> = scalars.iter().map(|s| s.inner).collect();
    FixedBase::msm::<G2Projective>(scalar_size, window, table.inner.as_slice(), v.as_slice())
        .into_iter()
        .map(|p| G2Elem { inner: p })
        .collect()
}

/// Relies on `ark_poly::EvaluationDomain::new` for
/// `GeneralEvaluationDomain` over this scalar field (two-adicity 32, small
/// subgroup of base 3 and power 1): a domain of size at least `num_coeffs`
/// exists exactly when `num_coeffs <= 3 * 2^32`; the construction is a
/// deterministic function of the target size alone, and the constructed
/// domain never has fewer elements than the target.
#[verifier::external_body]
pub(crate) fn domain_new(num_coeffs: usize) -> (r: Option<Domain>)
    requires
        num_coeffs <= 0x4000_0000_0000_0000,
    ensures
        r is Some <==> num_coeffs <= 0x3_0000_0000,
        r matches Some(d) ==> d == domain_of(num_coeffs as int)
            && domain_size_of(d) >= num_coeffs,
{
    GeneralEvaluationDomain::<Fr>::new(num_coeffs).map(|d| Domain { inner: d })
}

/// Relies on `ark_poly::EvaluationDomain::size`: the number of elements of
/// the domain, a function of the domain alone.
#[verifier::external_body]
pub(crate) fn domain_size(d: &Domain) -> (r: usize)
    ensures
        r == domain_size_of(*d),
{
    d.inner.size()
}

/// Relies on `ark_poly::EvaluationDomain::element`: the `i`-th element of
/// the domain's enumeration, `offset * generator^i`, which is a member of
/// the domain's element set for every index.
#[verifier::external_body]
pub(crate) fn domain_element(d: &Domain, i: usize) -> (r: Scalar)
    ensures
        in_domain_of(*d, r),
{
    Scalar { inner: d.inner.element(i) }
}

/// Relies on `ark_poly::EvaluationDomain::sample_element_outside_domain`:
/// it draws scalars until the domain's vanishing polynomial is nonzero at
/// the draw, so the result never lies in the domain's element set.
#[verifier::external_body]
pub(crate) fn sample_outside_domain(d: &Domain, rng: &mut SetupRng) -> (r: Scalar)
    ensures
        !in_domain_of(*d, r),
{
    Scalar { inner: d.inner.sample_element_outside_domain(&mut rng.inner) }
}

} // verus!
