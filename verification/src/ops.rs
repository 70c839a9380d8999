//! The public face of the algebra boundary: verified pass-throughs that
//! expose scalar arithmetic, single (naive-path) scalar multiplication,
//! affine conversion and canonical bytes to callers and tests, each with
//! the exact contract of the underlying operation.

use vstd::prelude::*;

use crate::algebra::{
    fr_add, fr_eq, fr_from_u64, fr_is_zero, fr_is_zero_of, fr_mul, fr_rand, g1_mul,
    g1_mul_of, g1_point_bytes, g1_point_bytes_of, g1_rand, g1_to_affine, g1_affine_of, g2_mul,
    g2_mul_of, g2_point_bytes, g2_point_bytes_of, g2_rand, g2_to_affine, g2_affine_of,
    fr_add_of, fr_mul_of, rng_from_seed, scalar_of_u64, G1Elem, G1Point, G2Elem, G2Point, Scalar,
    SetupRng,
};

verus! {

/// The sum of two scalars.
pub fn scalar_add(a: &Scalar, b: &Scalar) -> (r: Scalar)
    ensures
        r == fr_add_of(*a, *b),
{
    fr_add(a, b)
}

/// The product of two scalars.
pub fn scalar_mul(a: &Scalar, b: &Scalar) -> (r: Scalar)
    ensures
        r == fr_mul_of(*a, *b),
{
    fr_mul(a, b)
}

/// Whether the scalar is zero.
pub fn scalar_is_zero(a: &Scalar) -> (r: bool)
    ensures
        r == fr_is_zero_of(*a),
{
    fr_is_zero(a)
}

/// Whether two scalars are equal.
pub fn scalar_eq(a: &Scalar, b: &Scalar) -> (r: bool)
    ensures
        r == (*a == *b),
{
    fr_eq(a, b)
}

/// The field's multiplicative identity: the embedding of one.
pub fn scalar_one() -> (r: Scalar)
    ensures
        r == scalar_of_u64(1),
{
    fr_from_u64(1)
}

/// The scalar embedded from a machine integer.
pub fn scalar_from_u64(x: u64) -> (r: Scalar)
    ensures
        r == scalar_of_u64(x),
{
    fr_from_u64(x)
}

/// A randomness source seeded deterministically.
pub fn seeded_rng(seed: u64) -> SetupRng {
    rng_from_seed(seed)
}

/// A scalar drawn from the randomness source.
pub fn random_scalar(rng: &mut SetupRng) -> Scalar {
    fr_rand(rng)
}

/// A first-group element drawn from the randomness source.
pub fn random_g1(rng: &mut SetupRng) -> G1Elem {
    g1_rand(rng)
}

/// A second-group element drawn from the randomness source.
pub fn random_g2(rng: &mut SetupRng) -> G2Elem {
    g2_rand(rng)
}

/// Single scalar multiplication in the first group: the naive path the
/// engine's batches are measured against.
pub fn g1_scale(base: &G1Elem, scalar: &Scalar) -> (r: G1Elem)
    ensures
        r == g1_mul_of(*base, *scalar),
{
    g1_mul(base, scalar)
}

/// Single scalar multiplication in the second group.
pub fn g2_scale(base: &G2Elem, scalar: &Scalar) -> (r: G2Elem)
    ensures
        r == g2_mul_of(*base, *scalar),
{
    g2_mul(base, scalar)
}

/// The canonical affine form of a first-group element.
pub fn g1_point(p: &G1Elem) -> (r: G1Point)
    ensures
        r == g1_affine_of(*p),
{
    g1_to_affine(p)
}

/// The canonical affine form of a second-group element.
pub fn g2_point(p: &G2Elem) -> (r: G2Point)
    ensures
        r == g2_affine_of(*p),
{
    g2_to_affine(p)
}

/// The canonical compressed bytes of a first-group affine point.
pub fn g1_bytes(p: &G1Point) -> (r: Vec<u8>)
    ensures
        r@ == g1_point_bytes_of(*p),
{
    g1_point_bytes(p)
}

/// The canonical compressed bytes of a second-group affine point.
pub fn g2_bytes(p: &G2Point) -> (r: Vec<u8>)
    ensures
        r@ == g2_point_bytes_of(*p),
{
    g2_point_bytes(p)
}

} // verus!
