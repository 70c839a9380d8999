//! Domain sizing, construction, degree-bound rejection, and
//! domain-disjointness of the sampled evaluation point.

use gm17::generator::{
    build_domain, domain_len, domain_member, domain_size_target, make_domain, sample_point,
};
use gm17::keys::SetupError;
use gm17::ops::{scalar_eq, seeded_rng};

/// The sizing formula: `2 * constraints + 2 * inputs - 1`.
#[test]
fn sizing_formula() {
    assert_eq!(domain_size_target(0, 1), Some(1));
    assert_eq!(domain_size_target(1, 2), Some(5));
    assert_eq!(domain_size_target(3, 2), Some(9));
    assert_eq!(domain_size_target(usize::MAX / 2 + 1, 1), None);
}

/// The sampled point never equals any element enumerable from the
/// domain, for domains of size 1, 2 and 7 (rounded to 8).
#[test]
fn sampled_point_outside_small_domains() {
    for (seed, target, size) in [(1u64, 1usize, 1usize), (2, 2, 2), (3, 7, 8)] {
        let d = build_domain(target).unwrap();
        let mut rng = seeded_rng(seed);
        let t = sample_point(&d, &mut rng);
        let n = domain_len(&d);
        assert_eq!(n, size);
        for i in 0..n {
            let e = domain_member(&d, i);
            assert!(!scalar_eq(&t, &e));
        }
    }
}

/// The same disjointness for a non-power-of-two constraint count whose
/// target size must be rounded up.
#[test]
fn sampled_point_outside_rounded_domain() {
    let d = make_domain(3, 2).unwrap();
    let n = domain_len(&d);
    assert_eq!(n, 16);
    let mut rng = seeded_rng(9);
    let t = sample_point(&d, &mut rng);
    for i in 0..n {
        assert!(!scalar_eq(&t, &domain_member(&d, i)));
    }
}

/// A circuit whose required domain size exceeds the supported maximum
/// yields the degree-too-large error, not a panic or a malformed key.
#[test]
fn degree_bound_rejection() {
    // 2 * (0x1_8000_0001) + 2 - 1 = 3 * 2^32 + 3.
    let r = make_domain(0x1_8000_0001usize, 1);
    assert!(matches!(r, Err(SetupError::DegreeTooLarge)));

    // One past the largest supported size.
    let r2 = build_domain(0x3_0000_0001usize);
    assert!(matches!(r2, Err(SetupError::DegreeTooLarge)));

    // The largest supported size itself is accepted.
    assert!(build_domain(0x3_0000_0000usize).is_ok());

    // A count whose doubled value does not even fit the formula.
    let r3 = make_domain(usize::MAX / 2, 2);
    assert!(matches!(r3, Err(SetupError::DegreeTooLarge)));
}
