//! End-to-end checks of parameter generation against values computed
//! independently with the algebra library.

use ark_bls12_381::{Fr, G1Projective, G2Projective};
use ark_ec::CurveGroup;
use ark_ff::UniformRand;
use ark_serialize::CanonicalSerialize;
use ark_std::rand::rngs::StdRng;
use ark_std::rand::SeedableRng;

use gm17::generator::{generate_parameters, generate_random_parameters, GM17};
use gm17::keys::SapInstance;
use gm17::ops::{
    g1_bytes, g2_bytes, random_g1, random_g2, scalar_add, scalar_eq, scalar_from_u64,
    scalar_is_zero, scalar_mul, scalar_one, seeded_rng,
};

fn setup_sap() -> SapInstance {
    let a: Vec<u64> = vec![1, 2, 3, 0];
    let c: Vec<u64> = vec![5, 6, 7, 8];
    SapInstance {
        a: a.into_iter().map(scalar_from_u64).collect(),
        c: c.into_iter().map(scalar_from_u64).collect(),
        zt: scalar_from_u64(7),
        num_variables: 3,
        m_raw: 2,
    }
}

fn ark_g1_bytes(p: &G1Projective) -> Vec<u8> {
    let mut out = Vec::new();
    p.into_affine().serialize_compressed(&mut out).unwrap();
    out
}

fn ark_g2_bytes(p: &G2Projective) -> Vec<u8> {
    let mut out = Vec::new();
    p.into_affine().serialize_compressed(&mut out).unwrap();
    out
}

/// Runs the explicit-trapdoor path on a small reduction with trapdoor
/// alpha=2, beta=3, gamma=4, t=5, Z(t)=7, and checks every key field
/// against the exponents computed directly with the algebra library.
#[test]
fn explicit_trapdoor_key_fields() {
    let sap = setup_sap();
    let num_inputs = 2usize;
    let t = scalar_from_u64(5);
    let alpha = scalar_from_u64(2);
    let beta = scalar_from_u64(3);
    let gamma = scalar_from_u64(4);
    let mut rng_g = seeded_rng(7);
    let mut rng_h = seeded_rng(8);
    let g = random_g1(&mut rng_g);
    let h = random_g2(&mut rng_h);

    let pk = generate_parameters(&sap, num_inputs, &t, &alpha, &beta, &gamma, &g, &h);

    // The same group elements, drawn from the same seeds, on the ark side.
    let g_ark = G1Projective::rand(&mut StdRng::seed_from_u64(7));
    let h_ark = G2Projective::rand(&mut StdRng::seed_from_u64(8));

    let e1 = |k: u64| ark_g1_bytes(&(g_ark * Fr::from(k)));
    let e2 = |k: u64| ark_g2_bytes(&(h_ark * Fr::from(k)));

    // Verifying key.
    assert_eq!(g2_bytes(&pk.vk.h_g2), ark_g2_bytes(&h_ark));
    assert_eq!(g1_bytes(&pk.vk.g_alpha_g1), e1(2));
    assert_eq!(g2_bytes(&pk.vk.h_beta_g2), e2(3));
    assert_eq!(g1_bytes(&pk.vk.g_gamma_g1), e1(4));
    assert_eq!(g2_bytes(&pk.vk.h_gamma_g2), e2(4));
    // query[i] = g^(c_i * gamma + a_i * (alpha + beta)) for the inputs.
    assert_eq!(pk.vk.query.len(), 2);
    assert_eq!(g1_bytes(&pk.vk.query[0]), e1(5 * 4 + 1 * 5));
    assert_eq!(g1_bytes(&pk.vk.query[1]), e1(6 * 4 + 2 * 5));

    // A-query: a_i * gamma over the variable range.
    assert_eq!(pk.a_query.len(), 3);
    assert_eq!(g1_bytes(&pk.a_query[0]), e1(4));
    assert_eq!(g1_bytes(&pk.a_query[1]), e1(8));
    assert_eq!(g1_bytes(&pk.a_query[2]), e1(12));

    // B-query: a_i against the gamma-scaled second-group base.
    assert_eq!(pk.b_query.len(), 3);
    assert_eq!(g2_bytes(&pk.b_query[0]), e2(4));
    assert_eq!(g2_bytes(&pk.b_query[1]), e2(8));
    assert_eq!(g2_bytes(&pk.b_query[2]), e2(12));

    // First C-query: the combined query past the input boundary.
    assert_eq!(pk.c_query_1.len(), 2);
    assert_eq!(g1_bytes(&pk.c_query_1[0]), e1(7 * 4 + 3 * 5));
    assert_eq!(g1_bytes(&pk.c_query_1[1]), e1(8 * 4 + 0 * 5));

    // Second C-query: a_i * 2 * gamma^2 * Z(t) over the full range.
    assert_eq!(pk.c_query_2.len(), 4);
    assert_eq!(g1_bytes(&pk.c_query_2[0]), e1(224));
    assert_eq!(g1_bytes(&pk.c_query_2[1]), e1(448));
    assert_eq!(g1_bytes(&pk.c_query_2[2]), e1(672));
    assert_eq!(g1_bytes(&pk.c_query_2[3]), e1(0));

    // Single elements.
    assert_eq!(g1_bytes(&pk.g_gamma_z), e1(28));
    assert_eq!(g2_bytes(&pk.h_gamma_z), e2(28));
    assert_eq!(g1_bytes(&pk.g_ab_gamma_z), e1(140));
    assert_eq!(g1_bytes(&pk.g_gamma2_z2), e1(784));

    // Auxiliary vector: gamma^2 * Z(t) * t^i.
    assert_eq!(pk.g_gamma2_z_t.len(), 3);
    assert_eq!(g1_bytes(&pk.g_gamma2_z_t[0]), e1(112));
    assert_eq!(g1_bytes(&pk.g_gamma2_z_t[1]), e1(560));
    assert_eq!(g1_bytes(&pk.g_gamma2_z_t[2]), e1(2800));
}

/// Reconstructs `g^((alpha+beta) * gamma * Z(t))` independently for a
/// 3-constraint, 2-input shaped reduction with fixed trapdoor values and
/// compares it with the key's field.
#[test]
fn algebraic_consistency_ab_gamma_z() {
    let sap = setup_sap();
    let t = scalar_from_u64(11);
    let alpha = scalar_from_u64(6);
    let beta = scalar_from_u64(9);
    let gamma = scalar_from_u64(2);
    let g = random_g1(&mut seeded_rng(21));
    let h = random_g2(&mut seeded_rng(22));
    let pk = generate_parameters(&sap, 2, &t, &alpha, &beta, &gamma, &g, &h);

    let g_ark = G1Projective::rand(&mut StdRng::seed_from_u64(21));
    let expected = g_ark * ((Fr::from(6u64) + Fr::from(9u64)) * Fr::from(2u64) * Fr::from(7u64));
    assert_eq!(g1_bytes(&pk.g_ab_gamma_z), ark_g1_bytes(&expected));
}

/// Two invocations of the explicit-trapdoor entry point with identical
/// inputs produce byte-identical key records.
#[test]
fn determinism_explicit_trapdoor() {
    let run = || {
        let sap = setup_sap();
        let t = scalar_from_u64(5);
        let alpha = scalar_from_u64(2);
        let beta = scalar_from_u64(3);
        let gamma = scalar_from_u64(4);
        let g = random_g1(&mut seeded_rng(7));
        let h = random_g2(&mut seeded_rng(8));
        generate_parameters(&sap, 2, &t, &alpha, &beta, &gamma, &g, &h)
    };
    let pk1 = run();
    let pk2 = run();

    let flat = |pk: &gm17::keys::ProvingKey| {
        let mut all: Vec<u8> = Vec::new();
        all.extend(g2_bytes(&pk.vk.h_g2));
        all.extend(g1_bytes(&pk.vk.g_alpha_g1));
        all.extend(g2_bytes(&pk.vk.h_beta_g2));
        all.extend(g1_bytes(&pk.vk.g_gamma_g1));
        all.extend(g2_bytes(&pk.vk.h_gamma_g2));
        for p in &pk.vk.query {
            all.extend(g1_bytes(p));
        }
        for p in &pk.a_query {
            all.extend(g1_bytes(p));
        }
        for p in &pk.b_query {
            all.extend(g2_bytes(p));
        }
        for p in &pk.c_query_1 {
            all.extend(g1_bytes(p));
        }
        for p in &pk.c_query_2 {
            all.extend(g1_bytes(p));
        }
        all.extend(g1_bytes(&pk.g_gamma_z));
        all.extend(g2_bytes(&pk.h_gamma_z));
        all.extend(g1_bytes(&pk.g_ab_gamma_z));
        all.extend(g1_bytes(&pk.g_gamma2_z2));
        for p in &pk.g_gamma2_z_t {
            all.extend(g1_bytes(p));
        }
        all
    };
    assert_eq!(flat(&pk1), flat(&pk2));
}

/// The scenario of a trivial squaring circuit with one public input:
/// after reduction it has two SAP variables; generation with a fixed seed
/// yields a verifying-key query with exactly one element and non-empty
/// query vectors of the predicted sizes.
#[test]
fn squaring_circuit_scenario() {
    let sap = SapInstance {
        a: vec![scalar_from_u64(1), scalar_from_u64(3), scalar_from_u64(1)],
        c: vec![scalar_from_u64(9), scalar_from_u64(1), scalar_from_u64(4)],
        zt: scalar_from_u64(13),
        num_variables: 2,
        m_raw: 3,
    };
    let t = scalar_from_u64(6);
    let mut rng = seeded_rng(42);
    let (pk, vk) = GM17::circuit_specific_setup(&sap, 1, &t, &mut rng);

    assert_eq!(vk.query.len(), 1);
    assert_eq!(pk.a_query.len(), 2);
    assert_eq!(pk.b_query.len(), 2);
    assert_eq!(pk.c_query_1.len(), 2);
    assert_eq!(pk.c_query_2.len(), 3);
    assert_eq!(pk.g_gamma2_z_t.len(), 4);
    assert!(!pk.a_query.is_empty() && !pk.b_query.is_empty() && !pk.c_query_1.is_empty());

    // The embedded verifying key and the returned copy agree.
    assert_eq!(g2_bytes(&vk.h_g2), g2_bytes(&pk.vk.h_g2));
    assert_eq!(g1_bytes(&vk.query[0]), g1_bytes(&pk.vk.query[0]));
}

/// The random-parameters entry point produces the same vector sizing as
/// the explicit path.
#[test]
fn random_parameters_sizing() {
    let sap = setup_sap();
    let t = scalar_from_u64(5);
    let mut rng = seeded_rng(1);
    let pk = generate_random_parameters(&sap, 2, &t, &mut rng);
    assert_eq!(pk.vk.query.len(), 2);
    assert_eq!(pk.a_query.len(), 3);
    assert_eq!(pk.b_query.len(), 3);
    assert_eq!(pk.c_query_1.len(), 2);
    assert_eq!(pk.c_query_2.len(), 4);
    assert_eq!(pk.g_gamma2_z_t.len(), 3);
}

/// The exposed scalar operations against the embedding of machine
/// integers: sum, product, zero test and equality.
#[test]
fn scalar_operations() {
    let five = scalar_from_u64(5);
    let seven = scalar_from_u64(7);
    assert!(scalar_eq(&scalar_add(&five, &seven), &scalar_from_u64(12)));
    assert!(scalar_eq(&scalar_mul(&five, &seven), &scalar_from_u64(35)));
    assert!(!scalar_eq(&five, &seven));
    assert!(scalar_is_zero(&scalar_from_u64(0)));
    assert!(!scalar_is_zero(&five));
    assert!(scalar_eq(&scalar_one(), &scalar_from_u64(1)));
    assert!(scalar_eq(&scalar_mul(&five, &scalar_one()), &five));
}

/// The random-parameters entry point fixes `gamma` to the field's
/// identity: the key's `g^gamma` and `h^gamma` are the affine forms of
/// the sampled generators themselves.
#[test]
fn random_parameters_identity_gamma() {
    let sap = setup_sap();
    let t = scalar_from_u64(5);
    let mut rng = seeded_rng(55);
    let pk = generate_random_parameters(&sap, 2, &t, &mut rng);

    // Replicate the draw order on the ark side: alpha, beta, g, h.
    let mut ark_rng = StdRng::seed_from_u64(55);
    let alpha_ark = Fr::rand(&mut ark_rng);
    let _beta_ark = Fr::rand(&mut ark_rng);
    let g_ark = G1Projective::rand(&mut ark_rng);
    let h_ark = G2Projective::rand(&mut ark_rng);

    assert_eq!(g1_bytes(&pk.vk.g_gamma_g1), ark_g1_bytes(&g_ark));
    assert_eq!(g2_bytes(&pk.vk.h_gamma_g2), ark_g2_bytes(&h_ark));
    assert_eq!(g2_bytes(&pk.vk.h_g2), ark_g2_bytes(&h_ark));
    assert_eq!(g1_bytes(&pk.vk.g_alpha_g1), ark_g1_bytes(&(g_ark * alpha_ark)));
}

/// Boundary sizing: with as many inputs as SAP variables the first
/// C-query keeps exactly one element, and `m_raw = 0` leaves a single
/// auxiliary point.
#[test]
fn boundary_sizing() {
    let sap = SapInstance {
        a: vec![scalar_from_u64(2), scalar_from_u64(4), scalar_from_u64(6)],
        c: vec![scalar_from_u64(1), scalar_from_u64(3), scalar_from_u64(5)],
        zt: scalar_from_u64(19),
        num_variables: 2,
        m_raw: 0,
    };
    let t = scalar_from_u64(23);
    let alpha = scalar_from_u64(1);
    let beta = scalar_from_u64(1);
    let gamma = scalar_from_u64(1);
    let g = random_g1(&mut seeded_rng(31));
    let h = random_g2(&mut seeded_rng(32));
    let pk = generate_parameters(&sap, 2, &t, &alpha, &beta, &gamma, &g, &h);
    assert_eq!(pk.vk.query.len(), 2);
    assert_eq!(pk.c_query_1.len(), 1);
    assert_eq!(pk.g_gamma2_z_t.len(), 1);
    assert_eq!(pk.a_query.len(), 2);
    assert_eq!(pk.c_query_2.len(), 3);

    // gamma = 1: the auxiliary point is g^(Z(t)) and the first A-query
    // entry is g^(a_0).
    let g_ark = G1Projective::rand(&mut StdRng::seed_from_u64(31));
    assert_eq!(g1_bytes(&pk.g_gamma2_z_t[0]), ark_g1_bytes(&(g_ark * Fr::from(19u64))));
    assert_eq!(g1_bytes(&pk.a_query[0]), ark_g1_bytes(&(g_ark * Fr::from(2u64))));
}
