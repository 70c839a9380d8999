//! The parameter-generation pipeline: domain sizing and construction,
//! sampling of the evaluation point outside the domain, derivation of
//! every exponent of the trapdoor, the batched fixed-base multiplications
//! in both groups, and assembly of the two key records.

use vstd::prelude::*;

use crate::algebra::{
    domain_element, domain_new, domain_of, domain_size, domain_size_of, fr_add, fr_add_of,
    fr_from_u64, fr_is_zero, fr_is_zero_of, fr_mul, fr_mul_of, fr_rand, g1_affine_of, g1_mul,
    g1_mul_of, g1_normalize_batch, g1_rand, g1_to_affine, g2_affine_of, g2_mul, g2_mul_of,
    g2_normalize_batch, g2_rand, g2_to_affine, in_domain_of, sample_outside_domain, scalar_of_u64,
    Domain, G1Elem, G2Elem, Scalar, SetupRng,
};
use crate::keys::{ProvingKey, SapInstance, SetupError, VerifyingKey};
use crate::msm::{G1Msm, G2Msm};

verus! {

/// Largest domain size the algebra library supports over this scalar
/// field: `3 * 2^32`.
pub const MAX_DOMAIN_SIZE: u64 = 0x3_0000_0000;

/// `alpha + beta`.
pub open spec fn alpha_beta_of(alpha: Scalar, beta: Scalar) -> Scalar {
    fr_add_of(alpha, beta)
}

/// `Z(t) * gamma`.
pub open spec fn gamma_z_of(zt: Scalar, gamma: Scalar) -> Scalar {
    fr_mul_of(zt, gamma)
}

/// `(alpha + beta) * gamma * Z(t)`.
pub open spec fn ab_gamma_z_of(alpha: Scalar, beta: Scalar, gamma: Scalar, zt: Scalar) -> Scalar {
    fr_mul_of(fr_mul_of(alpha_beta_of(alpha, beta), gamma), zt)
}

/// `Z(t) * gamma^2`.
pub open spec fn gamma2_z_of(zt: Scalar, gamma: Scalar) -> Scalar {
    fr_mul_of(zt, fr_mul_of(gamma, gamma))
}

/// `2 * gamma^2 * Z(t)`.
pub open spec fn double_gamma2_z_of(zt: Scalar, gamma: Scalar) -> Scalar {
    fr_add_of(gamma2_z_of(zt, gamma), gamma2_z_of(zt, gamma))
}

/// `gamma^2 * Z(t) * t^i`, built by repeated multiplication by `t`.
pub open spec fn aux_scalar_of(zt: Scalar, gamma: Scalar, t: Scalar, i: nat) -> Scalar
    decreases i,
{
    if i == 0 {
        fr_mul_of(gamma_z_of(zt, gamma), gamma)
    } else {
        fr_mul_of(aux_scalar_of(zt, gamma, t, (i - 1) as nat), t)
    }
}

/// `a_i * gamma`: one A-query exponent.
pub open spec fn a_scalar_of(a_i: Scalar, gamma: Scalar) -> Scalar {
    fr_mul_of(a_i, gamma)
}

/// `c_i * gamma + a_i * (alpha + beta)`: one combined C-query exponent.
pub open spec fn c_scalar_of(a_i: Scalar, c_i: Scalar, alpha: Scalar, beta: Scalar, gamma: Scalar) -> Scalar {
    fr_add_of(fr_mul_of(c_i, gamma), fr_mul_of(a_i, alpha_beta_of(alpha, beta)))
}

/// `a_i * 2 * gamma^2 * Z(t)`: one second C-query exponent.
pub open spec fn c2_scalar_of(a_i: Scalar, zt: Scalar, gamma: Scalar) -> Scalar {
    fr_mul_of(a_i, double_gamma2_z_of(zt, gamma))
}

/// Count of entries among the first `n` that are not zero.
pub open spec fn nonzero_count_of(s: Seq<Scalar>, n: int) -> int
    decreases n,
{
    if n <= 0 {
        0
    } else {
        nonzero_count_of(s, n - 1) + (if fr_is_zero_of(s[n - 1]) {
            0int
        } else {
            1int
        })
    }
}

/// What the verifying key holds for a given reduction and trapdoor.
pub open spec fn vk_matches(
    vk: VerifyingKey,
    a: Seq<Scalar>,
    c: Seq<Scalar>,
    num_inputs: int,
    alpha: Scalar,
    beta: Scalar,
    gamma: Scalar,
    g: G1Elem,
    h: G2Elem,
) -> bool {
    &&& vk.h_g2 == g2_affine_of(h)
    &&& vk.g_alpha_g1 == g1_affine_of(g1_mul_of(g, alpha))
    &&& vk.h_beta_g2 == g2_affine_of(g2_mul_of(h, beta))
    &&& vk.g_gamma_g1 == g1_affine_of(g1_mul_of(g, gamma))
    &&& vk.h_gamma_g2 == g2_affine_of(g2_mul_of(h, gamma))
    &&& vk.query@.len() == num_inputs
    &&& (forall|i: int|
        0 <= i < num_inputs ==> vk.query@[i] == g1_affine_of(
            g1_mul_of(g, c_scalar_of(a[i], c[i], alpha, beta, gamma)),
        ))
}

/// What the proving key holds for a given reduction, sampled point and
/// trapdoor: every field pinned to its exponent.
pub open spec fn pk_matches(
    pk: ProvingKey,
    a: Seq<Scalar>,
    c: Seq<Scalar>,
    zt: Scalar,
    num_variables: int,
    m_raw: int,
    num_inputs: int,
    t: Scalar,
    alpha: Scalar,
    beta: Scalar,
    gamma: Scalar,
    g: G1Elem,
    h: G2Elem,
) -> bool {
    &&& vk_matches(pk.vk, a, c, num_inputs, alpha, beta, gamma, g, h)
    &&& pk.a_query@.len() == num_variables
    &&& (forall|i: int|
        0 <= i < num_variables ==> pk.a_query@[i] == g1_affine_of(
            g1_mul_of(g, a_scalar_of(a[i], gamma)),
        ))
    &&& pk.b_query@.len() == num_variables
    &&& (forall|i: int|
        0 <= i < num_variables ==> pk.b_query@[i] == g2_affine_of(
            g2_mul_of(g2_mul_of(h, gamma), a[i]),
        ))
    &&& pk.c_query_1@.len() == num_variables + 1 - num_inputs
    &&& (forall|i: int|
        0 <= i < num_variables + 1 - num_inputs ==> pk.c_query_1@[i] == g1_affine_of(
            g1_mul_of(g, c_scalar_of(a[num_inputs + i], c[num_inputs + i], alpha, beta, gamma)),
        ))
    &&& pk.c_query_2@.len() == num_variables + 1
    &&& (forall|i: int|
        0 <= i < num_variables + 1 ==> pk.c_query_2@[i] == g1_affine_of(
            g1_mul_of(g, c2_scalar_of(a[i], zt, gamma)),
        ))
    &&& pk.g_gamma_z == g1_affine_of(g1_mul_of(g, gamma_z_of(zt, gamma)))
    &&& pk.h_gamma_z == g2_affine_of(g2_mul_of(g2_mul_of(h, gamma), zt))
    &&& pk.g_ab_gamma_z == g1_affine_of(g1_mul_of(g, ab_gamma_z_of(alpha, beta, gamma, zt)))
    &&& pk.g_gamma2_z2 == g1_affine_of(
        g1_mul_of(g, fr_mul_of(gamma_z_of(zt, gamma), gamma_z_of(zt, gamma))),
    )
    &&& pk.g_gamma2_z_t@.len() == m_raw + 1
    &&& (forall|i: int|
        0 <= i <= m_raw ==> pk.g_gamma2_z_t@[i] == g1_affine_of(
            g1_mul_of(g, aux_scalar_of(zt, gamma, t, i as nat)),
        ))
}

/// Target size of the evaluation domain for a constraint system with
/// `num_constraints` constraints and `num_inputs` instance variables:
/// `2 * num_constraints + 2 * num_inputs - 1`, or `None` when that
/// quantity does not fit in `usize`.
pub fn domain_size_target(num_constraints: usize, num_inputs: usize) -> (r: Option<usize>)
    requires
        num_inputs >= 1,
    ensures
        match r {
            Some(n) => n == 2 * num_constraints + 2 * num_inputs - 1,
            None => 2 * num_constraints + 2 * num_inputs - 1 > usize::MAX,
        },
{
    let wide: u128 = 2 * (num_constraints as u128) + 2 * (num_inputs as u128) - 1;
    if wide <= usize::MAX as u128 {
        Some(wide as usize)
    } else {
        None
    }
}

/// Construct the evaluation domain of at least `target_size` elements;
/// fails exactly when the target exceeds the largest supported size.
pub fn build_domain(target_size: usize) -> (r: Result<Domain, SetupError>)
    requires
        target_size <= 0x4000_0000_0000_0000,
    ensures
        (r is Ok) <==> target_size <= MAX_DOMAIN_SIZE,
        r matches Ok(d) ==> d == domain_of(target_size as int)
            && domain_size_of(d) >= target_size,
        r matches Err(e) ==> e == SetupError::DegreeTooLarge,
{
    match domain_new(target_size) {
        Some(d) => Ok(d),
        None => Err(SetupError::DegreeTooLarge),
    }
}

/// Size the domain from the circuit's counts and construct it; fails
/// exactly when the required size exceeds the largest supported size.
pub fn make_domain(num_constraints: usize, num_inputs: usize) -> (r: Result<Domain, SetupError>)
    requires
        num_inputs >= 1,
    ensures
        (r is Ok) <==> (2 * num_constraints + 2 * num_inputs - 1 <= MAX_DOMAIN_SIZE
            && 2 * num_constraints + 2 * num_inputs - 1 <= usize::MAX),
        r matches Ok(d) ==> d == domain_of(2 * num_constraints + 2 * num_inputs - 1)
            && domain_size_of(d) >= 2 * num_constraints + 2 * num_inputs - 1,
        r matches Err(e) ==> e == SetupError::DegreeTooLarge,
{
    let wide: u128 = 2 * (num_constraints as u128) + 2 * (num_inputs as u128) - 1;
    if wide <= MAX_DOMAIN_SIZE as u128 && wide <= usize::MAX as u128 {
        build_domain(wide as usize)
    } else {
        Err(SetupError::DegreeTooLarge)
    }
}

/// Law: degree-bound rejection. A result that meets the domain stage's
/// contract is exactly the degree error whenever the required size
/// exceeds the largest supported domain, and otherwise the constructed
/// domain of at least the required size: never a panic, never partial
/// material.
pub proof fn lemma_degree_bound_rejection(
    r: Result<Domain, SetupError>,
    num_constraints: int,
    num_inputs: int,
)
    requires
        num_inputs >= 1,
        (r is Ok) <==> (2 * num_constraints + 2 * num_inputs - 1 <= MAX_DOMAIN_SIZE
            && 2 * num_constraints + 2 * num_inputs - 1 <= usize::MAX),
        r matches Ok(d) ==> d == domain_of(2 * num_constraints + 2 * num_inputs - 1)
            && domain_size_of(d) >= 2 * num_constraints + 2 * num_inputs - 1,
        r matches Err(e) ==> e == SetupError::DegreeTooLarge,
    ensures
        2 * num_constraints + 2 * num_inputs - 1 > MAX_DOMAIN_SIZE ==> r == Err::<
            Domain,
            SetupError,
        >(SetupError::DegreeTooLarge),
        r matches Ok(d) ==> domain_size_of(d) >= 2 * num_constraints + 2 * num_inputs - 1,
{
}

/// Sample the evaluation point: never an element of the domain.
pub fn sample_point(d: &Domain, rng: &mut SetupRng) -> (r: Scalar)
    ensures
        !in_domain_of(*d, r),
{
    sample_outside_domain(d, rng)
}

/// The number of elements of the domain.
pub fn domain_len(d: &Domain) -> (r: usize)
    ensures
        r == domain_size_of(*d),
{
    domain_size(d)
}

/// The `i`-th element of the domain's enumeration: always a member of the
/// domain's element set, so never equal to a sampled evaluation point.
pub fn domain_member(d: &Domain, i: usize) -> (r: Scalar)
    ensures
        in_domain_of(*d, r),
{
    domain_element(d, i)
}

/// Law: domain disjointness. A sampled evaluation point, which the
/// sampler guarantees outside the domain's element set, differs from
/// every element the domain enumerates.
pub proof fn lemma_sampled_point_not_enumerable(d: Domain, t: Scalar, e: Scalar)
    requires
        !in_domain_of(d, t),
        in_domain_of(d, e),
    ensures
        t != e,
{
}

/// The A-query exponents: `a[i] * gamma` for the SAP variable range.
fn a_query_scalars(a: &Vec<Scalar>, gamma: &Scalar, num_variables: usize) -> (r: Vec<Scalar>)
    requires
        num_variables < a@.len(),
    ensures
        r@.len() == num_variables,
        forall|i: int| 0 <= i < num_variables ==> r@[i] == a_scalar_of(a@[i], *gamma),
{
    let mut out: Vec<Scalar> = Vec::new();
    let mut i: usize = 0;
    while i < num_variables
        invariant
            num_variables < a@.len(),
            i <= num_variables,
            out@.len() == i,
            forall|j: int| 0 <= j < i ==> out@[j] == a_scalar_of(a@[j], *gamma),
        decreases num_variables - i,
    {
        out.push(fr_mul(&a[i], gamma));
        i += 1;
    }
    out
}

/// The B-query exponents: the plain `a[i]` for the SAP variable range.
fn b_query_scalars(a: &Vec<Scalar>, num_variables: usize) -> (r: Vec<Scalar>)
    requires
        num_variables < a@.len(),
    ensures
        r@.len() == num_variables,
        forall|i: int| 0 <= i < num_variables ==> r@[i] == a@[i],
{
    let mut out: Vec<Scalar> = Vec::new();
    let mut i: usize = 0;
    while i < num_variables
        invariant
            num_variables < a@.len(),
            i <= num_variables,
            out@.len() == i,
            forall|j: int| 0 <= j < i ==> out@[j] == a@[j],
        decreases num_variables - i,
    {
        out.push(a[i]);
        i += 1;
    }
    out
}

/// The combined C-query exponents over the full index range.
fn c_query_scalars(
    a: &Vec<Scalar>,
    c: &Vec<Scalar>,
    alpha: &Scalar,
    beta: &Scalar,
    gamma: &Scalar,
) -> (r: Vec<Scalar>)
    requires
        a@.len() == c@.len(),
    ensures
        r@.len() == a@.len(),
        forall|i: int|
            0 <= i < a@.len() ==> r@[i] == c_scalar_of(a@[i], c@[i], *alpha, *beta, *gamma),
{
    let ab = fr_add(alpha, beta);
    let mut out: Vec<Scalar> = Vec::new();
    let mut i: usize = 0;
    while i < a.len()
        invariant
            a@.len() == c@.len(),
            i <= a@.len(),
            out@.len() == i,
            ab == alpha_beta_of(*alpha, *beta),
            forall|j: int| 0 <= j < i ==> out@[j] == c_scalar_of(a@[j], c@[j], *alpha, *beta, *gamma),
        decreases a@.len() - i,
    {
        out.push(fr_add(&fr_mul(&c[i], gamma), &fr_mul(&a[i], &ab)));
        i += 1;
    }
    out
}

/// The second C-query exponents over the full index range.
fn c2_query_scalars(a: &Vec<Scalar>, zt: &Scalar, gamma: &Scalar) -> (r: Vec<Scalar>)
    ensures
        r@.len() == a@.len(),
        forall|i: int| 0 <= i < a@.len() ==> r@[i] == c2_scalar_of(a@[i], *zt, *gamma),
{
    let gamma2_z = fr_mul(zt, &fr_mul(gamma, gamma));
    let double_gamma2_z = fr_add(&gamma2_z, &gamma2_z);
    let mut out: Vec<Scalar> = Vec::new();
    let mut i: usize = 0;
    while i < a.len()
        invariant
            i <= a@.len(),
            out@.len() == i,
            double_gamma2_z == double_gamma2_z_of(*zt, *gamma),
            forall|j: int| 0 <= j < i ==> out@[j] == c2_scalar_of(a@[j], *zt, *gamma),
        decreases a@.len() - i,
    {
        out.push(fr_mul(&a[i], &double_gamma2_z));
        i += 1;
    }
    out
}

/// The auxiliary exponents `gamma^2 Z(t) t^i` for `i` up to `m_raw`,
/// built by one multiplication by `t` per step.
fn aux_query_scalars(zt: &Scalar, gamma: &Scalar, t: &Scalar, m_raw: usize) -> (r: Vec<Scalar>)
    requires
        m_raw < usize::MAX,
    ensures
        r@.len() == m_raw + 1,
        forall|i: int| 0 <= i <= m_raw ==> r@[i] == aux_scalar_of(*zt, *gamma, *t, i as nat),
{
    let mut cur = fr_mul(&fr_mul(zt, gamma), gamma);
    let mut out: Vec<Scalar> = Vec::new();
    out.push(cur);
    let mut i: usize = 0;
    while i < m_raw
        invariant
            i <= m_raw,
            m_raw < usize::MAX,
            out@.len() == i + 1,
            cur == aux_scalar_of(*zt, *gamma, *t, i as nat),
            forall|j: int| 0 <= j <= i ==> out@[j] == aux_scalar_of(*zt, *gamma, *t, j as nat),
        decreases m_raw - i,
    {
        cur = fr_mul(&cur, t);
        out.push(cur);
        i += 1;
    }
    out
}

/// Count of nonzero entries among the first `num_variables` coefficients:
/// sizes the window table for the B-query.
fn count_nonzero(a: &Vec<Scalar>, num_variables: usize) -> (r: usize)
    requires
        num_variables <= a@.len(),
    ensures
        r == nonzero_count_of(a@, num_variables as int),
        r <= num_variables,
{
    let mut count: usize = 0;
    let mut i: usize = 0;
    while i < num_variables
        invariant
            num_variables <= a@.len(),
            i <= num_variables,
            count == nonzero_count_of(a@, i as int),
            count <= i,
        decreases num_variables - i,
    {
        if !fr_is_zero(&a[i]) {
            count += 1;
        }
        i += 1;
    }
    count
}

/// The first `n` entries of a batch of first-group points.
fn take_prefix(v: &Vec<G1Elem>, n: usize) -> (r: Vec<G1Elem>)
    requires
        n <= v@.len(),
    ensures
        r@.len() == n,
        forall|i: int| 0 <= i < n ==> r@[i] == v@[i],
{
    let mut out: Vec<G1Elem> = Vec::new();
    let mut i: usize = 0;
    while i < n
        invariant
            n <= v@.len(),
            i <= n,
            out@.len() == i,
            forall|j: int| 0 <= j < i ==> out@[j] == v@[j],
        decreases n - i,
    {
        out.push(v[i]);
        i += 1;
    }
    out
}

/// The entries of a batch of first-group points from index `n` on.
fn take_suffix(v: &Vec<G1Elem>, n: usize) -> (r: Vec<G1Elem>)
    requires
        n <= v@.len(),
    ensures
        r@.len() == v@.len() - n,
        forall|i: int| 0 <= i < v@.len() - n ==> r@[i] == v@[n + i],
{
    let mut out: Vec<G1Elem> = Vec::new();
    let mut i: usize = n;
    while i < v.len()
        invariant
            n <= i <= v@.len(),
            out@.len() == i - n,
            forall|j: int| 0 <= j < i - n ==> out@[j] == v@[n + j],
        decreases v@.len() - i,
    {
        out.push(v[i]);
        i += 1;
    }
    out
}

/// Create parameters for a reduced circuit, given the toxic waste: the
/// whole key layout is pinned, field by field, to the exponents derived
/// from the trapdoor, the sampled point and the reduction's coefficients.
pub fn generate_parameters(
    sap: &SapInstance,
    num_inputs: usize,
    t: &Scalar,
    alpha: &Scalar,
    beta: &Scalar,
    gamma: &Scalar,
    g: &G1Elem,
    h: &G2Elem,
) -> (pk: ProvingKey)
    requires
        sap.wf(),
        1 <= num_inputs <= sap.num_variables,
    ensures
        pk_matches(
            pk,
            sap.a@,
            sap.c@,
            sap.zt,
            sap.num_variables as int,
            sap.m_raw as int,
            num_inputs as int,
            *t,
            *alpha,
            *beta,
            *gamma,
            *g,
            *h,
        ),
{
    let num_variables = sap.num_variables;

    // Query densities, for window sizing only.
    let non_zero_a = count_nonzero(&sap.a, num_variables);

    // One window table for every first-group batch: sized by the total
    // number of scalars it will serve.
    let planned_wide: u128 = (num_inputs as u128) + (non_zero_a as u128) + ((num_variables
        - (num_inputs - 1)) as u128) + (num_variables as u128) + 1 + (sap.m_raw as u128) + 1;
    let planned: usize = if planned_wide > 0xFFFF_FFFFu128 {
        0xFFFF_FFFF
    } else {
        planned_wide as usize
    };
    let g_engine = G1Msm::new(g, planned);

    // The A-query.
    let a_scalars = a_query_scalars(&sap.a, gamma, num_variables);
    let a_query_proj = g_engine.batch_mul(&a_scalars);

    // The derived single exponents and elements.
    let gamma_z = fr_mul(&sap.zt, gamma);
    let alpha_beta = fr_add(alpha, beta);
    let ab_gamma_z = fr_mul(&fr_mul(&alpha_beta, gamma), &sap.zt);
    let g_gamma = g1_mul(g, gamma);
    let g_gamma_z = g1_mul(g, &gamma_z);
    let h_gamma = g2_mul(h, gamma);
    let h_gamma_z = g2_mul(&h_gamma, &sap.zt);
    let g_ab_gamma_z = g1_mul(g, &ab_gamma_z);
    let g_gamma2_z2 = g1_mul(g, &fr_mul(&gamma_z, &gamma_z));

    // The auxiliary vector `Z(t) * t^i * gamma^2 * G`.
    let aux_scalars = aux_query_scalars(&sap.zt, gamma, t, sap.m_raw);
    let g_gamma2_z_t_proj = g_engine.batch_mul(&aux_scalars);

    // The combined C-query, split at the public-input boundary.
    let c_scalars = c_query_scalars(&sap.a, &sap.c, alpha, beta, gamma);
    let c_proj = g_engine.batch_mul(&c_scalars);
    let verifier_query_proj = take_prefix(&c_proj, num_inputs);
    let c_query_1_proj = take_suffix(&c_proj, num_inputs);

    // The second C-query.
    let c2_scalars = c2_query_scalars(&sap.a, &sap.zt, gamma);
    let c2_proj = g_engine.batch_mul(&c2_scalars);

    // The B-query, in the second group against the gamma-scaled base.
    let h_engine = G2Msm::new(&h_gamma, non_zero_a);
    let b_scalars = b_query_scalars(&sap.a, num_variables);
    let b_query_proj = h_engine.batch_mul(&b_scalars);

    // The verifying key's single elements.
    let g_alpha = g1_mul(g, alpha);
    let h_beta = g2_mul(h, beta);

    let vk = VerifyingKey {
        h_g2: g2_to_affine(h),
        g_alpha_g1: g1_to_affine(&g_alpha),
        h_beta_g2: g2_to_affine(&h_beta),
        g_gamma_g1: g1_to_affine(&g_gamma),
        h_gamma_g2: g2_to_affine(&h_gamma),
        query: g1_normalize_batch(&verifier_query_proj),
    };

    ProvingKey {
        vk,
        a_query: g1_normalize_batch(&a_query_proj),
        b_query: g2_normalize_batch(&b_query_proj),
        c_query_1: g1_normalize_batch(&c_query_1_proj),
        c_query_2: g1_normalize_batch(&c2_proj),
        g_gamma_z: g1_to_affine(&g_gamma_z),
        h_gamma_z: g2_to_affine(&h_gamma_z),
        g_ab_gamma_z: g1_to_affine(&g_ab_gamma_z),
        g_gamma2_z2: g1_to_affine(&g_gamma2_z2),
        g_gamma2_z_t: g1_normalize_batch(&g_gamma2_z_t_proj),
    }
}

/// Generate a random common reference string for a reduced circuit:
/// `alpha` and `beta` and the two group generators are sampled, `gamma`
/// is fixed to the field's multiplicative identity (the embedding of
/// one), and the explicit-trapdoor path does the rest: some trapdoor
/// with that `gamma` pins every field of the result.
pub fn generate_random_parameters(
    sap: &SapInstance,
    num_inputs: usize,
    t: &Scalar,
    rng: &mut SetupRng,
) -> (pk: ProvingKey)
    requires
        sap.wf(),
        1 <= num_inputs <= sap.num_variables,
    ensures
        exists|alpha: Scalar, beta: Scalar, g: G1Elem, h: G2Elem|
            pk_matches(
                pk,
                sap.a@,
                sap.c@,
                sap.zt,
                sap.num_variables as int,
                sap.m_raw as int,
                num_inputs as int,
                *t,
                alpha,
                beta,
                scalar_of_u64(1),
                g,
                h,
            ),
        pk.vk.query@.len() == num_inputs,
        pk.a_query@.len() == sap.num_variables,
        pk.b_query@.len() == sap.num_variables,
        pk.c_query_1@.len() == sap.num_variables + 1 - num_inputs,
        pk.c_query_2@.len() == sap.num_variables + 1,
        pk.g_gamma2_z_t@.len() == sap.m_raw + 1,
{
    let alpha = fr_rand(rng);
    let beta = fr_rand(rng);
    let gamma = fr_from_u64(1);
    let g = g1_rand(rng);
    let h = g2_rand(rng);
    generate_parameters(sap, num_inputs, t, &alpha, &beta, &gamma, &g, &h)
}

/// The setup engine of the construction.
pub struct GM17 {}

impl GM17 {
    /// Circuit-specific setup: run random-parameter generation and hand
    /// back the proving key together with a copy of its embedded
    /// verifying key.
    pub fn circuit_specific_setup(
        sap: &SapInstance,
        num_inputs: usize,
        t: &Scalar,
        rng: &mut SetupRng,
    ) -> (r: (ProvingKey, VerifyingKey))
        requires
            sap.wf(),
            1 <= num_inputs <= sap.num_variables,
        ensures
            r.1.h_g2 == r.0.vk.h_g2,
            r.1.g_alpha_g1 == r.0.vk.g_alpha_g1,
            r.1.h_beta_g2 == r.0.vk.h_beta_g2,
            r.1.g_gamma_g1 == r.0.vk.g_gamma_g1,
            r.1.h_gamma_g2 == r.0.vk.h_gamma_g2,
            r.1.query@ == r.0.vk.query@,
            exists|alpha: Scalar, beta: Scalar, g: G1Elem, h: G2Elem|
                pk_matches(
                    r.0,
                    sap.a@,
                    sap.c@,
                    sap.zt,
                    sap.num_variables as int,
                    sap.m_raw as int,
                    num_inputs as int,
                    *t,
                    alpha,
                    beta,
                    scalar_of_u64(1),
                    g,
                    h,
                ),
    {
        let pk = generate_random_parameters(sap, num_inputs, t, rng);
        let vk = pk.vk.duplicate();
        (pk, vk)
    }
}

/// Law: generation is deterministic. Two proving keys that satisfy the
/// generator's contract for the same reduction, sampled point and
/// trapdoor agree in every field — and hence, canonical bytes being a
/// function of the value, byte for byte.
pub proof fn lemma_generation_deterministic(
    pk1: ProvingKey,
    pk2: ProvingKey,
    a: Seq<Scalar>,
    c: Seq<Scalar>,
    zt: Scalar,
    num_variables: int,
    m_raw: int,
    num_inputs: int,
    t: Scalar,
    alpha: Scalar,
    beta: Scalar,
    gamma: Scalar,
    g: G1Elem,
    h: G2Elem,
)
    requires
        pk_matches(pk1, a, c, zt, num_variables, m_raw, num_inputs, t, alpha, beta, gamma, g, h),
        pk_matches(pk2, a, c, zt, num_variables, m_raw, num_inputs, t, alpha, beta, gamma, g, h),
    ensures
        pk1.vk.h_g2 == pk2.vk.h_g2,
        pk1.vk.g_alpha_g1 == pk2.vk.g_alpha_g1,
        pk1.vk.h_beta_g2 == pk2.vk.h_beta_g2,
        pk1.vk.g_gamma_g1 == pk2.vk.g_gamma_g1,
        pk1.vk.h_gamma_g2 == pk2.vk.h_gamma_g2,
        pk1.vk.query@ == pk2.vk.query@,
        pk1.a_query@ == pk2.a_query@,
        pk1.b_query@ == pk2.b_query@,
        pk1.c_query_1@ == pk2.c_query_1@,
        pk1.c_query_2@ == pk2.c_query_2@,
        pk1.g_gamma_z == pk2.g_gamma_z,
        pk1.h_gamma_z == pk2.h_gamma_z,
        pk1.g_ab_gamma_z == pk2.g_ab_gamma_z,
        pk1.g_gamma2_z2 == pk2.g_gamma2_z2,
        pk1.g_gamma2_z_t@ == pk2.g_gamma2_z_t@,
{
    assert(pk1.vk.query@ =~= pk2.vk.query@);
    assert(pk1.a_query@ =~= pk2.a_query@);
    assert(pk1.b_query@ =~= pk2.b_query@);
    assert(pk1.c_query_1@ =~= pk2.c_query_1@);
    assert(pk1.c_query_2@ =~= pk2.c_query_2@);
    assert(pk1.g_gamma2_z_t@ =~= pk2.g_gamma2_z_t@);
}

} // verus!
