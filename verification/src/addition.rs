//! Incomplete point addition and the per-chunk accumulation step.

use vstd::prelude::*;

use pasta_curves::pallas;

use crate::constants::lemma_personalization_byte_lens;
use crate::constants::S_PERSONALIZATION;
use crate::curve::add_of;
use crate::curve::eq_of;
use crate::curve::hash_to_curve;
use crate::curve::hash_to_curve_of;
use crate::curve::is_identity_of;
use crate::curve::neg_of;
use crate::curve::point_add;
use crate::curve::point_eq;
use crate::curve::point_is_identity;
use crate::curve::point_neg;

verus! {

/// A point in incomplete-addition form: either a curve point, or the sticky
/// `Undefined` outcome that an exceptional input pair produces.
pub enum IncompletePoint {
    Valid(pallas::Point),
    Undefined,
}

/// What incomplete addition returns: the sum under the complete group law
/// when both operands are defined, distinct, not mutual negations and not
/// the identity; `Undefined` otherwise.
pub open spec fn incomplete_add_spec(a: IncompletePoint, b: IncompletePoint) -> IncompletePoint {
    match (a, b) {
        (IncompletePoint::Valid(p), IncompletePoint::Valid(q)) => {
            if is_identity_of(p) || is_identity_of(q) || eq_of(p, q) || eq_of(p, neg_of(q)) {
                IncompletePoint::Undefined
            } else {
                IncompletePoint::Valid(add_of(p, q))
            }
        },
        _ => IncompletePoint::Undefined,
    }
}

/// Incomplete addition: defined only for generic operand pairs, `Undefined`
/// on the exceptional cases and whenever either operand is already
/// `Undefined`.
pub fn incomplete_add(a: &IncompletePoint, b: &IncompletePoint) -> (r: IncompletePoint)
    ensures
        r == incomplete_add_spec(*a, *b),
{
    match (a, b) {
        (IncompletePoint::Valid(p), IncompletePoint::Valid(q)) => {
            let exceptional = point_is_identity(p) || point_is_identity(q) || point_eq(p, q)
                || point_eq(p, &point_neg(q));
            if exceptional {
                IncompletePoint::Undefined
            } else {
                IncompletePoint::Valid(point_add(p, q))
            }
        },
        _ => IncompletePoint::Undefined,
    }
}

/// An `Undefined` operand makes every incomplete addition `Undefined`:
/// the exceptional outcome never resolves back to a point.
pub proof fn lemma_undefined_is_sticky(b: IncompletePoint)
    ensures
        incomplete_add_spec(IncompletePoint::Undefined, b) == IncompletePoint::Undefined,
        incomplete_add_spec(b, IncompletePoint::Undefined) == IncompletePoint::Undefined,
{
}

/// The little-endian byte string by which a chunk value indexes the lookup
/// table: the value's eight bytes, of which only the low two can be nonzero.
pub open spec fn le8_of(j: nat) -> Seq<u8> {
    seq![(j % 256) as u8, ((j / 256) % 256) as u8, 0u8, 0u8, 0u8, 0u8, 0u8, 0u8]
}

/// The lookup-table point for a chunk value.
pub open spec fn s_of(j: nat) -> pallas::Point {
    hash_to_curve_of(S_PERSONALIZATION@, le8_of(j))
}

/// The lookup-table point for a chunk value: a complete hash-to-curve call
/// over the value encoded as a fixed-width little-endian byte string, under
/// the table's own personalization label.
pub fn sinsemilla_s(j: u32) -> (r: pallas::Point)
    requires
        j < 1024,
    ensures
        r == s_of(j as nat),
{
    let mut bytes: Vec<u8> = Vec::new();
    bytes.push((j % 256) as u8);
    bytes.push(((j / 256) % 256) as u8);
    bytes.push(0u8);
    bytes.push(0u8);
    bytes.push(0u8);
    bytes.push(0u8);
    bytes.push(0u8);
    bytes.push(0u8);
    proof {
        assert(bytes@ =~= le8_of(j as nat));
        lemma_personalization_byte_lens();
    }
    hash_to_curve(S_PERSONALIZATION, bytes.as_slice())
}

/// One accumulation step: `(acc + S_chunk) + acc`, both incomplete additions
/// taken on the original accumulator.
pub open spec fn fold_step_spec(acc: IncompletePoint, v: nat) -> IncompletePoint {
    incomplete_add_spec(
        incomplete_add_spec(acc, IncompletePoint::Valid(s_of(v))),
        acc,
    )
}

/// The accumulator after folding a sequence of chunk values, first chunk
/// first.
pub open spec fn fold_vals_spec(acc: IncompletePoint, vals: Seq<nat>) -> IncompletePoint
    decreases vals.len(),
{
    if vals.len() == 0 {
        acc
    } else {
        fold_vals_spec(fold_step_spec(acc, vals[0]), vals.skip(1))
    }
}

/// Folding from an `Undefined` accumulator stays `Undefined`, whatever the
/// chunks are.
pub proof fn lemma_fold_vals_undefined(vals: Seq<nat>)
    ensures
        fold_vals_spec(IncompletePoint::Undefined, vals) == IncompletePoint::Undefined,
    decreases vals.len(),
{
    if vals.len() > 0 {
        lemma_fold_vals_undefined(vals.skip(1));
    }
}

/// Peeling the first chunk value off a fold.
pub proof fn lemma_fold_vals_cons(acc: IncompletePoint, v: nat, rest: Seq<nat>)
    ensures
        fold_vals_spec(acc, seq![v] + rest) == fold_vals_spec(fold_step_spec(acc, v), rest),
{
    assert((seq![v] + rest)[0] == v);
    assert((seq![v] + rest).skip(1) =~= rest);
}

/// One accumulation step, executed in the exact order of the recurrence.
pub fn fold_step(acc: IncompletePoint, chunk_value: u32) -> (r: IncompletePoint)
    requires
        chunk_value < 1024,
    ensures
        r == fold_step_spec(acc, chunk_value as nat),
{
    let s_point = sinsemilla_s(chunk_value);
    let with_s = incomplete_add(&acc, &IncompletePoint::Valid(s_point));
    incomplete_add(&with_s, &acc)
}

} // verus!
