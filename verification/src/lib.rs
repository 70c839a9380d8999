//! Parameter generation for the GM17 pairing-based zero-knowledge proof
//! construction: given a Square Arithmetic Program reduction of a
//! constraint system and the setup trapdoor, it derives the proving key
//! and the verifying key through two windowed fixed-base multi-scalar
//! multiplication engines, and proves how every key field is assembled.

pub mod algebra;
pub mod generator;
pub mod keys;
pub mod msm;
pub mod ops;
