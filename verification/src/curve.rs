//! Trusted boundary to the Pallas curve arithmetic.
//!
//! Every operation of the collaborating curve library that the hash logic
//! needs is reached through exactly one wrapper here, and the value each
//! deterministic operation returns is given a name that the contracts of the
//! verified code speak of.

use vstd::prelude::*;

use group::Curve;
use group::Group;
use pasta_curves::arithmetic::CurveAffine;
use pasta_curves::arithmetic::CurveExt;
use pasta_curves::pallas;

verus! {

use vstd::string::StringSliceAdditionalSpecFns;

#[verifier::external_type_specification]
#[verifier::external_body]
pub struct ExPoint(pasta_curves::Ep);

#[verifier::external_type_specification]
#[verifier::external_body]
pub struct ExBase(pasta_curves::Fp);

#[verifier::external_type_specification]
#[verifier::external_body]
pub struct ExScalar(pasta_curves::Fq);

/// The point that the curve library's hash-to-curve returns for a
/// personalization label and a message.
pub uninterp spec fn hash_to_curve_of(label: Seq<char>, msg: Seq<u8>) -> pallas::Point;

/// The sum of two curve points under the complete group law.
pub uninterp spec fn add_of(p: pallas::Point, q: pallas::Point) -> pallas::Point;

/// The negation of a curve point.
pub uninterp spec fn neg_of(p: pallas::Point) -> pallas::Point;

/// The product of a curve point and a scalar-field element.
pub uninterp spec fn mul_of(p: pallas::Point, s: pallas::Scalar) -> pallas::Point;

/// Whether two curve points represent the same group element.
pub uninterp spec fn eq_of(p: pallas::Point, q: pallas::Point) -> bool;

/// Whether a curve point is the identity element of the group.
pub uninterp spec fn is_identity_of(p: pallas::Point) -> bool;

/// The affine x-coordinate of a curve point, absent for the identity.
pub uninterp spec fn x_coord_of(p: pallas::Point) -> Option<pallas::Base>;

/// Relies on `pasta_curves::arithmetic::CurveExt::hash_to_curve`: a
/// deterministic function of the personalization label and the message. The
/// call asserts `22 + "pallas".len() + label.len() < 256` over the label's
/// bytes, so longer labels are left out.
#[verifier::external_body]
pub(crate) fn hash_to_curve(label: &str, msg: &[u8]) -> (r: pallas::Point)
    requires
        label.spec_bytes().len() <= 227,
    ensures
        r == hash_to_curve_of(label@, msg@),
{
    pallas::Point::hash_to_curve(label)(msg)
}

/// Relies on the complete point addition of `pasta_curves` (`Add` on `Ep`).
#[verifier::external_body]
pub(crate) fn point_add(p: &pallas::Point, q: &pallas::Point) -> (r: pallas::Point)
    ensures
        r == add_of(*p, *q),
{
    p + q
}

/// Relies on point negation of `pasta_curves` (`Neg` on `Ep`).
#[verifier::external_body]
pub(crate) fn point_neg(p: &pallas::Point) -> (r: pallas::Point)
    ensures
        r == neg_of(*p),
{
    -p
}

/// Relies on scalar multiplication of `pasta_curves` (`Mul<Fq>` on `Ep`).
#[verifier::external_body]
pub(crate) fn point_mul(p: &pallas::Point, s: &pallas::Scalar) -> (r: pallas::Point)
    ensures
        r == mul_of(*p, *s),
{
    p * s
}

/// Relies on `PartialEq` on `Ep`, which `pasta_curves` implements as
/// constant-time equality of the represented group elements.
#[verifier::external_body]
pub(crate) fn point_eq(p: &pallas::Point, q: &pallas::Point) -> (r: bool)
    ensures
        r == eq_of(*p, *q),
{
    p == q
}

/// Relies on `group::Group::is_identity`.
#[verifier::external_body]
pub(crate) fn point_is_identity(p: &pallas::Point) -> (r: bool)
    ensures
        r == is_identity_of(*p),
{
    bool::from(p.is_identity())
}

/// Relies on `group::Curve::to_affine` and
/// `pasta_curves::arithmetic::CurveAffine::coordinates`: the affine
/// x-coordinate of the point, which exists exactly when the point is not the
/// identity.
#[verifier::external_body]
pub(crate) fn point_x_coord(p: &pallas::Point) -> (r: Option<pallas::Base>)
    ensures
        r == x_coord_of(*p),
{
    Option::from(p.to_affine().coordinates().map(|c| *c.x()))
}

/// Relies on `Clone` on `Ep`, a `Copy` type: the clone is the same value.
#[verifier::external_body]
pub(crate) fn point_clone(p: &pallas::Point) -> (r: pallas::Point)
    ensures
        r == *p,
{
    p.clone()
}

} // verus!
