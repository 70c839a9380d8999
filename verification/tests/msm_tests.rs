//! The windowed fixed-base engine against naive scalar multiplication,
//! for batch sizes 0, 1, 17 and 1000 and scalars of small and large
//! bit-widths.

use ark_bls12_381::{Fr, G1Projective};
use ark_ec::CurveGroup;
use ark_ff::UniformRand;
use ark_serialize::CanonicalSerialize;
use ark_std::rand::rngs::StdRng;
use ark_std::rand::SeedableRng;

use gm17::algebra::Scalar;
use gm17::msm::{G1Msm, G2Msm};
use gm17::ops::{
    g1_bytes, g1_point, g1_scale, g2_bytes, g2_point, g2_scale, random_g1, random_g2,
    random_scalar, scalar_from_u64, seeded_rng,
};

fn msm_ark_bytes(p: &G1Projective) -> Vec<u8> {
    let mut out = Vec::new();
    p.into_affine().serialize_compressed(&mut out).unwrap();
    out
}

/// The engine agrees with naive single multiplications for batches of
/// 0, 1, 17 and 1000 random full-width scalars.
#[test]
fn engine_matches_naive_batches() {
    let g = random_g1(&mut seeded_rng(100));
    for (seed, n) in [(0u64, 0usize), (1, 1), (2, 17), (3, 1000)] {
        let mut rng = seeded_rng(seed);
        let scalars: Vec<Scalar> = (0..n).map(|_| random_scalar(&mut rng)).collect();
        let engine = G1Msm::new(&g, n);
        let batch = engine.batch_mul(&scalars);
        assert_eq!(batch.len(), n);
        for i in 0..n {
            let naive = g1_scale(&g, &scalars[i]);
            assert_eq!(g1_bytes(&g1_point(&batch[i])), g1_bytes(&g1_point(&naive)));
        }
    }
}

/// The engine agrees with the algebra library's own multiplication for
/// small-width scalars, including zero and one.
#[test]
fn engine_matches_library_small_scalars() {
    let g = random_g1(&mut seeded_rng(200));
    let g_ark = G1Projective::rand(&mut StdRng::seed_from_u64(200));
    let small: Vec<u64> = vec![0, 1, 2, 3, 17, 255, 256, 65535, 1 << 32, u64::MAX];
    let scalars: Vec<Scalar> = small.iter().copied().map(scalar_from_u64).collect();
    let engine = G1Msm::new(&g, scalars.len());
    let batch = engine.batch_mul(&scalars);
    for (i, k) in small.iter().enumerate() {
        let expected = g_ark * Fr::from(*k);
        assert_eq!(g1_bytes(&g1_point(&batch[i])), msm_ark_bytes(&expected));
    }
}

/// The engine agrees with naive multiplication in the second group, and
/// with full-width random scalars replicated on the ark side.
#[test]
fn engine_matches_naive_second_group() {
    let h = random_g2(&mut seeded_rng(300));
    let mut rng = seeded_rng(301);
    let scalars: Vec<Scalar> = (0..17).map(|_| random_scalar(&mut rng)).collect();
    let engine = G2Msm::new(&h, scalars.len());
    let batch = engine.batch_mul(&scalars);
    assert_eq!(batch.len(), 17);
    let mut ark_rng = StdRng::seed_from_u64(301);
    let ark_scalars: Vec<Fr> = (0..17).map(|_| Fr::rand(&mut ark_rng)).collect();
    let h_ark = ark_bls12_381::G2Projective::rand(&mut StdRng::seed_from_u64(300));
    for i in 0..17 {
        let naive = g2_scale(&h, &scalars[i]);
        assert_eq!(g2_bytes(&g2_point(&batch[i])), g2_bytes(&g2_point(&naive)));
        let mut out = Vec::new();
        (h_ark * ark_scalars[i]).into_affine().serialize_compressed(&mut out).unwrap();
        assert_eq!(g2_bytes(&g2_point(&batch[i])), out);
    }
}
