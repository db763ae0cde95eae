use group::Curve;
use pasta_curves::arithmetic::CurveAffine;
use pasta_curves::arithmetic::CurveExt;
use pasta_curves::pallas;

use sinsemilla::HashDomain;
use sinsemilla::K;

fn bits(pattern: &[u8]) -> Vec<bool> {
    pattern.iter().map(|b| *b == 1).collect()
}

#[test]
fn main() {
    let domain = HashDomain::new("test");
    let message = bits(&[1, 1, 0, 1, 0, 1, 0, 1, 0, 1, 1]);
    let p = domain.hash_to_point(message);
    let _ = p;
}

#[test]
fn hash_to_point_present_for_scenario_message() {
    let domain = HashDomain::new("test");
    let message = bits(&[1, 1, 0, 1, 0, 1, 0, 1, 0, 1, 1]);
    let p = domain.hash_to_point(message);
    assert!(p.is_some());
}

#[test]
fn empty_message_yields_base_point() {
    let domain = HashDomain::new("test");
    let p = domain.hash_to_point(Vec::new());
    assert_eq!(p, Some(domain.Q()));
}

#[test]
fn base_point_matches_curve_library() {
    let domain = HashDomain::new("test");
    let expected = pallas::Point::hash_to_curve("z.cash:SinsemillaQ")(b"test");
    assert_eq!(domain.Q(), expected);
    assert_eq!(domain.hash_to_point(Vec::new()), Some(expected));
}

#[test]
fn single_chunk_matches_direct_curve_computation() {
    // One full chunk: the fold applies (Q + S(v)) + Q exactly once.
    let pattern = [1u8, 1, 0, 1, 0, 1, 0, 1, 0, 1];
    let message = bits(&pattern);
    let v: usize = pattern
        .iter()
        .enumerate()
        .map(|(i, b)| (*b as usize) << i)
        .sum();

    let q = pallas::Point::hash_to_curve("z.cash:SinsemillaQ")(b"test");
    let s = pallas::Point::hash_to_curve("z.cash:SinsemillaS")(&v.to_le_bytes());
    let expected = (q + s) + q;

    let domain = HashDomain::new("test");
    assert_eq!(domain.hash_to_point(message), Some(expected));
}

#[test]
fn hash_is_deterministic() {
    let message = bits(&[1, 0, 1, 1, 0, 0, 1, 0, 1, 1, 1, 0, 1]);
    let first = HashDomain::new("determinism").hash(message.clone());
    let second = HashDomain::new("determinism").hash(message.clone());
    let third = HashDomain::new("determinism").hash(message);
    assert!(first.is_some());
    assert_eq!(first, second);
    assert_eq!(second, third);
}

#[test]
fn distinct_labels_separate_domains() {
    let message = bits(&[1, 0, 1, 1, 0, 0, 1, 0, 1, 1]);
    let labels = ["a", "b", "test", "z.cash:test", "another-domain", "x"];
    for (i, first) in labels.iter().enumerate() {
        for second in labels.iter().skip(i + 1) {
            let h1 = HashDomain::new(first).hash(message.clone());
            let h2 = HashDomain::new(second).hash(message.clone());
            assert!(h1.is_some());
            assert!(h2.is_some());
            assert_ne!(h1, h2);
        }
    }
}

#[test]
fn padding_to_chunk_multiple_is_equivalent() {
    let domain = HashDomain::new("padding");
    let short = bits(&[1, 1, 0, 1, 0, 1, 0, 1, 0, 1, 1]);
    let mut padded = short.clone();
    while padded.len() % K != 0 {
        padded.push(false);
    }
    assert_eq!(padded.len(), 20);
    assert_eq!(domain.hash_to_point(short), domain.hash_to_point(padded));
}

#[test]
fn hash_is_x_coordinate_of_hash_point() {
    let domain = HashDomain::new("test");
    let message = bits(&[1, 1, 0, 1, 0, 1, 0, 1, 0, 1, 1]);
    let p = domain.hash_to_point(message.clone()).unwrap();
    let x = *p.to_affine().coordinates().unwrap().x();
    assert_eq!(domain.hash(message), Some(x));
}
