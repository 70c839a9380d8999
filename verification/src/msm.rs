//! The windowed fixed-base multi-scalar-multiplication engine: an owned,
//! read-only window table built once per base, then applied to whole
//! batches of scalars. The window width is chosen from the planned batch
//! size; the table is never rebuilt per scalar.

use vstd::prelude::*;

use crate::algebra::{
    g1_build_table, g1_mul_of, g1_window_table_of, g1_windowed_batch, g2_build_table, g2_mul_of,
    g2_window_table_of, g2_windowed_batch, mul_window_size, G1Elem, G1Table, G2Elem, G2Table,
    Scalar, FR_BITS,
};

verus! {

/// Largest batch-size count fed into window selection; larger counts are
/// clamped, which only affects the speed heuristic, never the result.
pub const MAX_WINDOW_INPUT: usize = 0xFFFF_FFFF;

/// The fixed-base engine for the first group.
pub struct G1Msm {
    /// The fixed base every scalar is multiplied into.
    pub base: G1Elem,
    /// The window width in bits.
    pub window: usize,
    /// The precomputed window table.
    pub table: G1Table,
}

impl G1Msm {
    /// The table is the one the algebra library builds for this base at
    /// the full scalar bit-width and this window.
    pub open spec fn wf(self) -> bool {
        &&& 1 <= self.window <= 22
        &&& self.table == g1_window_table_of(FR_BITS as int, self.window as int, self.base)
    }

    /// Build the lookup table for `base`, choosing the window width from
    /// the planned total number of scalars.
    pub fn new(base: &G1Elem, planned_scalars: usize) -> (r: Self)
        ensures
            r.wf(),
            r.base == *base,
    {
        let clamped: usize = if planned_scalars > MAX_WINDOW_INPUT {
            MAX_WINDOW_INPUT
        } else {
            planned_scalars
        };
        let window = mul_window_size(clamped);
        let table = g1_build_table(FR_BITS, window, base);
        G1Msm { base: *base, window, table }
    }

    /// Multiply every scalar of the batch into the fixed base, in order.
    pub fn batch_mul(&self, scalars: &Vec<Scalar>) -> (r: Vec<G1Elem>)
        requires
            self.wf(),
        ensures
            r@.len() == scalars@.len(),
            forall|i: int| 0 <= i < scalars@.len() ==> r@[i] == g1_mul_of(self.base, scalars@[i]),
    {
        g1_windowed_batch(FR_BITS, self.window, &self.table, &self.base, scalars)
    }
}

/// The fixed-base engine for the second group.
pub struct G2Msm {
    /// The fixed base every scalar is multiplied into.
    pub base: G2Elem,
    /// The window width in bits.
    pub window: usize,
    /// The precomputed window table.
    pub table: G2Table,
}

impl G2Msm {
    /// The table is the one the algebra library builds for this base at
    /// the full scalar bit-width and this window.
    pub open spec fn wf(self) -> bool {
        &&& 1 <= self.window <= 22
        &&& self.table == g2_window_table_of(FR_BITS as int, self.window as int, self.base)
    }

    /// Build the lookup table for `base`, choosing the window width from
    /// the planned total number of scalars.
    pub fn new(base: &G2Elem, planned_scalars: usize) -> (r: Self)
        ensures
            r.wf(),
            r.base == *base,
    {
        let clamped: usize = if planned_scalars > MAX_WINDOW_INPUT {
            MAX_WINDOW_INPUT
        } else {
            planned_scalars
        };
        let window = mul_window_size(clamped);
        let table = g2_build_table(FR_BITS, window, base);
        G2Msm { base: *base, window, table }
    }

    /// Multiply every scalar of the batch into the fixed base, in order.
    pub fn batch_mul(&self, scalars: &Vec<Scalar>) -> (r: Vec<G2Elem>)
        requires
            self.wf(),
        ensures
            r@.len() == scalars@.len(),
            forall|i: int| 0 <= i < scalars@.len() ==> r@[i] == g2_mul_of(self.base, scalars@[i]),
    {
        g2_windowed_batch(FR_BITS, self.window, &self.table, &self.base, scalars)
    }
}

/// Law: against a fixed first-group base, a batch output that meets the
/// engine's contract agrees, point for point, with independent single
/// scalar multiplications of the same scalars — whatever window the
/// engine chose.
pub proof fn lemma_batch_matches_single_g1(
    batch: Seq<G1Elem>,
    singles: Seq<G1Elem>,
    base: G1Elem,
    scalars: Seq<Scalar>,
)
    requires
        batch.len() == scalars.len(),
        forall|i: int| 0 <= i < scalars.len() ==> batch[i] == g1_mul_of(base, scalars[i]),
        singles.len() == scalars.len(),
        forall|i: int| 0 <= i < scalars.len() ==> singles[i] == g1_mul_of(base, scalars[i]),
    ensures
        batch == singles,
{
    assert(batch =~= singles);
}

/// Law: as for the first group, in the second group.
pub proof fn lemma_batch_matches_single_g2(
    batch: Seq<G2Elem>,
    singles: Seq<G2Elem>,
    base: G2Elem,
    scalars: Seq<Scalar>,
)
    requires
        batch.len() == scalars.len(),
        forall|i: int| 0 <= i < scalars.len() ==> batch[i] == g2_mul_of(base, scalars[i]),
        singles.len() == scalars.len(),
        forall|i: int| 0 <= i < scalars.len() ==> singles[i] == g2_mul_of(base, scalars[i]),
    ensures
        batch == singles,
{
    assert(batch =~= singles);
}

} // verus!
