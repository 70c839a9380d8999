//! The records produced by setup: the proving key with its embedded
//! verifying key, the Square Arithmetic Program instance they are built
//! from, and the error taxonomy of generation.

use vstd::prelude::*;

use crate::algebra::{G1Point, G2Point, Scalar};

verus! {

/// Why generation failed. Synthesis failures are reported by the
/// constraint compiler before this library is reached; the only failure
/// of generation itself is a domain that no supported size covers.
#[derive(Clone, Copy, Debug, PartialEq, Eq, Structural)]
pub enum SetupError {
    /// No evaluation domain of the required size exists.
    DegreeTooLarge,
}

/// A Square Arithmetic Program instance: the reduction's two dense
/// coefficient vectors, the vanishing polynomial's value at the sampled
/// point, the SAP variable count, and the bound on auxiliary powers of
/// the sampled point.
pub struct SapInstance {
    /// Coefficient vector `a`, one entry per SAP variable plus one.
    pub a: Vec<Scalar>,
    /// Coefficient vector `c`, one entry per SAP variable plus one.
    pub c: Vec<Scalar>,
    /// `Z(t)`: the vanishing polynomial evaluated at the sampled point.
    pub zt: Scalar,
    /// The SAP variable count.
    pub num_variables: usize,
    /// Bound on the auxiliary powers of the sampled point.
    pub m_raw: usize,
}

impl SapInstance {
    /// The reduction's output contract: both coefficient vectors have
    /// length `num_variables + 1`, and the auxiliary vector of length
    /// `m_raw + 1` is representable.
    pub open spec fn wf(self) -> bool {
        &&& self.a@.len() == self.num_variables + 1
        &&& self.c@.len() == self.num_variables + 1
        &&& self.m_raw < usize::MAX
    }
}

/// The public parameters a verifier needs.
pub struct VerifyingKey {
    /// The second-group generator `h`.
    pub h_g2: G2Point,
    /// `g^alpha`.
    pub g_alpha_g1: G1Point,
    /// `h^beta`.
    pub h_beta_g2: G2Point,
    /// `g^gamma`.
    pub g_gamma_g1: G1Point,
    /// `h^gamma`.
    pub h_gamma_g2: G2Point,
    /// The public-input query, one point per instance variable.
    pub query: Vec<G1Point>,
}

impl VerifyingKey {
    /// A copy of the record, field for field.
    pub fn duplicate(&self) -> (r: Self)
        ensures
            r.h_g2 == self.h_g2,
            r.g_alpha_g1 == self.g_alpha_g1,
            r.h_beta_g2 == self.h_beta_g2,
            r.g_gamma_g1 == self.g_gamma_g1,
            r.h_gamma_g2 == self.h_gamma_g2,
            r.query@ == self.query@,
    {
        VerifyingKey {
            h_g2: self.h_g2,
            g_alpha_g1: self.g_alpha_g1,
            h_beta_g2: self.h_beta_g2,
            g_gamma_g1: self.g_gamma_g1,
            h_gamma_g2: self.h_gamma_g2,
            query: copy_g1_points(&self.query),
        }
    }
}

/// The full parameters a prover needs; the verifying key is embedded.
pub struct ProvingKey {
    /// The embedded verifying key.
    pub vk: VerifyingKey,
    /// The A-query: first-group points for the SAP variables.
    pub a_query: Vec<G1Point>,
    /// The B-query: second-group points for the SAP variables.
    pub b_query: Vec<G2Point>,
    /// The first C-query: the part of the combined query past the
    /// public-input boundary.
    pub c_query_1: Vec<G1Point>,
    /// The second C-query.
    pub c_query_2: Vec<G1Point>,
    /// `g^(gamma Z(t))`.
    pub g_gamma_z: G1Point,
    /// `h^(gamma Z(t))`.
    pub h_gamma_z: G2Point,
    /// `g^((alpha + beta) gamma Z(t))`.
    pub g_ab_gamma_z: G1Point,
    /// `g^((gamma Z(t))^2)`.
    pub g_gamma2_z2: G1Point,
    /// The auxiliary vector `g^(gamma^2 Z(t) t^i)`, `i` up to `m_raw`.
    pub g_gamma2_z_t: Vec<G1Point>,
}

/// An element-for-element copy of a vector of first-group points.
pub fn copy_g1_points(v: &Vec<G1Point>) -> (r: Vec<G1Point>)
    ensures
        r@ == v@,
{
    let mut out: Vec<G1Point> = Vec::new();
    let mut i: usize = 0;
    while i < v.len()
        invariant
            i <= v@.len(),
            out@.len() == i,
            forall|j: int| 0 <= j < i ==> out@[j] == v@[j],
        decreases v@.len() - i,
    {
        out.push(v[i]);
        i += 1;
    }
    proof {
        assert(out@ =~= v@);
    }
    out
}

} // verus!
