use group::Curve;
use pasta_curves::arithmetic::CurveAffine;
use pasta_curves::arithmetic::CurveExt;
use pasta_curves::pallas;

use sinsemilla::CommitDomain;

fn bits(pattern: &[u8]) -> Vec<bool> {
    pattern.iter().map(|b| *b == 1).collect()
}

#[test]
fn commit_is_present_and_deterministic() {
    let domain = CommitDomain::new("test");
    let message = bits(&[1, 1, 0, 1, 0, 1, 0, 1, 0, 1, 1]);
    let blind = pallas::Scalar::from(7u64);
    let first = domain.commit(message.clone(), &blind);
    let second = domain.commit(message, &blind);
    assert!(first.is_some());
    assert_eq!(first, second);
}

#[test]
fn commit_matches_direct_curve_computation() {
    // The inner hash domain uses label "test-M"; the blinding generator
    // hashes the derived label "test-r" under its own personalization.
    let domain = CommitDomain::new("test");
    let message = bits(&[1, 0, 0, 1, 1]);
    let blind = pallas::Scalar::from(11u64);

    let m = sinsemilla::HashDomain::new("test-M");
    let r_gen = pallas::Point::hash_to_curve("z.cash:SinsemillaR")(b"test-r");
    assert_eq!(domain.R(), r_gen);
    let expected = m.hash_to_point(message.clone()).unwrap() + r_gen * blind;
    assert_eq!(domain.commit(message, &blind), Some(expected));
}

#[test]
fn distinct_blinding_scalars_give_distinct_commitments() {
    let domain = CommitDomain::new("test");
    let message = bits(&[1, 1, 0, 1, 0, 1, 0, 1, 0, 1, 1]);
    let scalars = [1u64, 2, 3, 99, 12345];
    for (i, a) in scalars.iter().enumerate() {
        for b in scalars.iter().skip(i + 1) {
            let c1 = domain.commit(message.clone(), &pallas::Scalar::from(*a));
            let c2 = domain.commit(message.clone(), &pallas::Scalar::from(*b));
            assert!(c1.is_some());
            assert_ne!(c1, c2);
        }
    }
}

#[test]
fn short_commit_is_x_coordinate_of_commit() {
    let domain = CommitDomain::new("test");
    let message = bits(&[1, 1, 0, 1, 0, 1, 0, 1, 0, 1, 1]);
    let blind = pallas::Scalar::from(5u64);
    let c = domain.commit(message.clone(), &blind).unwrap();
    let x = *c.to_affine().coordinates().unwrap().x();
    assert_eq!(domain.short_commit(message, &blind), Some(x));
}

#[test]
fn construction_fails_fast_on_oversized_labels() {
    // 62 label bytes plus a two-byte suffix exactly fill the 64-byte buffer.
    let just_fits = "a".repeat(62);
    assert!(CommitDomain::try_new(&just_fits).is_some());

    let too_long = "a".repeat(63);
    assert!(CommitDomain::try_new(&too_long).is_none());

    let far_too_long = "a".repeat(200);
    assert!(CommitDomain::try_new(&far_too_long).is_none());
}
