//! The Sinsemilla hash function and commitment scheme over the Pallas curve:
//! a domain-separated hash built from fixed-width message chunks, a
//! hash-to-curve lookup table and an incomplete-addition fold, plus the
//! Pedersen-style commitment built on it.

use vstd::prelude::*;

use pasta_curves::pallas;

pub mod addition;
pub mod chunks;
pub mod constants;
pub mod conversions;
pub mod curve;

pub use constants::C;
pub use constants::K;
pub use constants::Q_PERSONALIZATION;
pub use constants::R_PERSONALIZATION;
pub use constants::S_PERSONALIZATION;

use addition::fold_step;
use addition::fold_vals_spec;
use addition::IncompletePoint;
use chunks::chunk_vals_spec;
use chunks::lemma_chunk_vals_padding;
use chunks::pad_to_multiple;
use chunks::Chunks;
use conversions::lebs2ip_spec;
use constants::lemma_personalization_byte_lens;
use curve::add_of;
use curve::hash_to_curve;
use curve::hash_to_curve_of;
use curve::mul_of;
use curve::point_add;
use curve::point_clone;
use curve::point_mul;
use curve::point_x_coord;
use curve::x_coord_of;

verus! {

use vstd::string::StringExecFns;
use vstd::string::StringSliceAdditionalSpecFns;
use vstd::utf8::encode_utf8;
use vstd::utf8::is_ascii_chars;
use vstd::utf8::is_ascii_chars_encode_utf8;

/// The base point of the hash domain with the given label.
pub open spec fn q_of(label: Seq<char>) -> pallas::Point {
    hash_to_curve_of(Q_PERSONALIZATION@, encode_utf8(label))
}

/// The blinding generator of the commitment domain with the given derived
/// label.
pub open spec fn r_of(label: Seq<char>) -> pallas::Point {
    hash_to_curve_of(R_PERSONALIZATION@, encode_utf8(label))
}

/// The accumulator that hashing a message in a domain with base point `q`
/// produces: the incomplete-addition fold over the message's chunk values,
/// seeded at `q`.
pub open spec fn hash_to_point_spec(q: pallas::Point, bits: Seq<bool>) -> IncompletePoint {
    fold_vals_spec(IncompletePoint::Valid(q), chunk_vals_spec(bits))
}

/// The point of a fold that stayed defined, absent otherwise.
pub open spec fn to_option_spec(p: IncompletePoint) -> Option<pallas::Point> {
    match p {
        IncompletePoint::Valid(pt) => Some(pt),
        IncompletePoint::Undefined => None,
    }
}

/// x-coordinate extraction lifted over an absent point: no result when the
/// point is already absent, and none when it is the identity element and so
/// has no affine coordinates.
pub open spec fn extract_p_bottom_spec(p: Option<pallas::Point>) -> Option<pallas::Base> {
    match p {
        Some(pt) => x_coord_of(pt),
        None => None,
    }
}

/// The field element that hashing a message in a domain with base point `q`
/// produces: absent when the fold went undefined, and also when the hash
/// point is the identity element. The two absences are distinct conditions
/// (the fold's tag and the x-coordinate's presence tell them apart), merged
/// at this boundary.
pub open spec fn hash_spec(q: pallas::Point, bits: Seq<bool>) -> Option<pallas::Base> {
    extract_p_bottom_spec(to_option_spec(hash_to_point_spec(q, bits)))
}

/// The commitment to a message under a domain with hash base point `q` and
/// blinding generator `r_gen`: the complete sum of the message's hash point
/// and the scalar-blinded generator, absent when the hash fold went
/// undefined.
pub open spec fn commit_spec(
    q: pallas::Point,
    r_gen: pallas::Point,
    bits: Seq<bool>,
    blind: pallas::Scalar,
) -> Option<pallas::Point> {
    match hash_to_point_spec(q, bits) {
        IncompletePoint::Valid(p) => Some(add_of(p, mul_of(r_gen, blind))),
        IncompletePoint::Undefined => None,
    }
}

/// The x-coordinate of the commitment, with the same absence behaviour.
pub open spec fn short_commit_spec(
    q: pallas::Point,
    r_gen: pallas::Point,
    bits: Seq<bool>,
    blind: pallas::Scalar,
) -> Option<pallas::Base> {
    extract_p_bottom_spec(commit_spec(q, r_gen, bits, blind))
}

/// The affine x-coordinate of `point`, absent when `point` is the identity
/// and has no affine coordinates.
pub fn extract_p(point: &pallas::Point) -> (r: Option<pallas::Base>)
    ensures
        r == x_coord_of(*point),
{
    point_x_coord(point)
}

/// x-coordinate extraction applied under an optional point.
pub fn extract_p_bottom(point: Option<pallas::Point>) -> (r: Option<pallas::Base>)
    ensures
        r == extract_p_bottom_spec(point),
{
    match point {
        Some(p) => extract_p(&p),
        None => None,
    }
}

/// Concatenates two label strings. Their combined length must stay within
/// the fixed 64-byte label budget that bounds every derived label.
pub fn no_alloc_concat(first: &str, second: &str) -> (r: String)
    requires
        first.spec_bytes().len() + second.spec_bytes().len() <= 64,
    ensures
        r@ == first@ + second@,
{
    first.to_owned().concat(second)
}

/// A domain in which the hash-to-point and hash operations can be used.
#[allow(non_snake_case)]
pub struct HashDomain {
    Q: pallas::Point,
}

impl HashDomain {
    /// The domain's base point.
    pub closed spec fn q(&self) -> pallas::Point {
        self.Q
    }

    /// Constructs a new `HashDomain` with a specific prefix string: its base
    /// point is the domain-separated hash-to-curve image of the label.
    pub fn new(domain: &str) -> (r: HashDomain)
        ensures
            r.q() == q_of(domain@),
    {
        proof {
            lemma_personalization_byte_lens();
        }
        HashDomain { Q: hash_to_curve(Q_PERSONALIZATION, domain.as_bytes()) }
    }

    /// The fold over the message's chunks, seeded at the domain's base
    /// point, with its defined-or-undefined tag still visible.
    pub fn hash_to_point_inner(&self, msg: Vec<bool>) -> (r: IncompletePoint)
        requires
            msg@.len() <= C * K,
        ensures
            r == hash_to_point_spec(self.q(), msg@),
    {
        let ghost all = msg@;
        let mut chunks = Chunks::new(msg);
        let mut acc = IncompletePoint::Valid(point_clone(&self.Q));
        loop
            invariant_except_break
                chunks.wf(),
                fold_vals_spec(acc, chunk_vals_spec(chunks.remaining())) == fold_vals_spec(
                    IncompletePoint::Valid(self.q()),
                    chunk_vals_spec(all),
                ),
            ensures
                acc == hash_to_point_spec(self.q(), all),
            decreases chunks.remaining().len(),
        {
            let ghost rem_before = chunks.remaining();
            let next = chunks.next();
            match next {
                None => {
                    proof {
                        assert(chunk_vals_spec(rem_before) =~= Seq::<nat>::empty());
                    }
                    break ;
                },
                Some(chunk) => {
                    let v = conversions::lebs2ip_k(chunk.as_slice());
                    proof {
                        addition::lemma_fold_vals_cons(
                            acc,
                            lebs2ip_spec(chunk@),
                            chunk_vals_spec(chunks.remaining()),
                        );
                    }
                    acc = fold_step(acc, v);
                },
            }
        }
        acc
    }

    /// Hashes a message of at most `C * K` bits to a curve point; absent
    /// exactly when the incomplete-addition fold hit an exceptional case.
    pub fn hash_to_point(&self, msg: Vec<bool>) -> (r: Option<pallas::Point>)
        requires
            msg@.len() <= C * K,
        ensures
            r == to_option_spec(hash_to_point_spec(self.q(), msg@)),
    {
        let inner = self.hash_to_point_inner(msg);
        match inner {
            IncompletePoint::Valid(p) => Some(p),
            IncompletePoint::Undefined => None,
        }
    }

    /// Hashes a message of at most `C * K` bits to a base-field element: the
    /// x-coordinate of the hash point. Absent when the fold went undefined,
    /// and also when the hash point is the identity element; callers that
    /// must tell the two conditions apart use `hash_to_point_inner` and
    /// `extract_p` themselves.
    pub fn hash(&self, msg: Vec<bool>) -> (r: Option<pallas::Base>)
        requires
            msg@.len() <= C * K,
        ensures
            r == hash_spec(self.q(), msg@),
    {
        let p = self.hash_to_point(msg);
        extract_p_bottom(p)
    }

    /// Returns the domain's base point `Q`.
    #[allow(non_snake_case)]
    pub fn Q(&self) -> (r: pallas::Point)
        ensures
            r == self.q(),
    {
        point_clone(&self.Q)
    }
}

/// A domain in which the commit and short-commit operations can be used.
#[allow(non_snake_case)]
pub struct CommitDomain {
    M: HashDomain,
    R: pallas::Point,
}

/// The labels derived with the two-byte ASCII suffixes are exactly two bytes
/// longer than the domain label.
proof fn lemma_suffix_byte_lens()
    ensures
        ("-M")@.len() == 2,
        ("-r")@.len() == 2,
        ("-M").spec_bytes().len() == 2,
        ("-r").spec_bytes().len() == 2,
{
    reveal_strlit("-M");
    reveal_strlit("-r");
    assert(is_ascii_chars(("-M")@));
    assert(is_ascii_chars(("-r")@));
    is_ascii_chars_encode_utf8(("-M")@);
    is_ascii_chars_encode_utf8(("-r")@);
}

impl CommitDomain {
    /// The inner hash domain, built for the label with the `-M` suffix.
    pub closed spec fn m(&self) -> HashDomain {
        self.M
    }

    /// The blinding generator, built for the label with the `-r` suffix.
    pub closed spec fn r_gen(&self) -> pallas::Point {
        self.R
    }

    /// Constructs a new `CommitDomain` with a specific prefix string. The
    /// two derived labels append the literal suffixes `-M` and `-r` by exact
    /// byte concatenation, and must fit the fixed 64-byte label buffer.
    pub fn new(domain: &str) -> (r: CommitDomain)
        requires
            domain.spec_bytes().len() + 2 <= 64,
        ensures
            r.m().q() == q_of(domain@ + ("-M")@),
            r.r_gen() == r_of(domain@ + ("-r")@),
    {
        proof {
            lemma_suffix_byte_lens();
            lemma_personalization_byte_lens();
        }
        let m_prefix = no_alloc_concat(domain, "-M");
        let r_prefix = no_alloc_concat(domain, "-r");
        let m = HashDomain::new(m_prefix.as_str());
        let r_point = hash_to_curve(R_PERSONALIZATION, r_prefix.as_str().as_bytes());
        CommitDomain { M: m, R: r_point }
    }

    /// Checked construction: the domain when both derived labels fit the
    /// fixed 64-byte buffer, and nothing otherwise.
    pub fn try_new(domain: &str) -> (r: Option<CommitDomain>)
        ensures
            domain.spec_bytes().len() + 2 <= 64 ==> {
                &&& r is Some
                &&& r.unwrap().m().q() == q_of(domain@ + ("-M")@)
                &&& r.unwrap().r_gen() == r_of(domain@ + ("-r")@)
            },
            domain.spec_bytes().len() + 2 > 64 ==> r is None,
    {
        let byte_len = domain.as_bytes().len();
        if byte_len <= 62 {
            Some(CommitDomain::new(domain))
        } else {
            None
        }
    }

    /// Commits to a message under a blinding scalar: the complete sum of the
    /// message's hash point and the scalar-blinded generator `R`; absent
    /// exactly when the hash fold went undefined.
    pub fn commit(&self, msg: Vec<bool>, r: &pallas::Scalar) -> (res: Option<pallas::Point>)
        requires
            msg@.len() <= C * K,
        ensures
            res == commit_spec(self.m().q(), self.r_gen(), msg@, *r),
    {
        let inner = self.M.hash_to_point_inner(msg);
        match inner {
            IncompletePoint::Valid(p) => {
                let blinded = point_mul(&self.R, r);
                Some(point_add(&p, &blinded))
            },
            IncompletePoint::Undefined => None,
        }
    }

    /// The x-coordinate of the commitment, with the same absence behaviour
    /// as the hash.
    pub fn short_commit(&self, msg: Vec<bool>, r: &pallas::Scalar) -> (res: Option<pallas::Base>)
        requires
            msg@.len() <= C * K,
        ensures
            res == short_commit_spec(self.m().q(), self.r_gen(), msg@, *r),
    {
        let c = self.commit(msg, r);
        extract_p_bottom(c)
    }

    /// Returns the domain's blinding generator `R`.
    #[allow(non_snake_case)]
    pub fn R(&self) -> (r: pallas::Point)
        ensures
            r == self.r_gen(),
    {
        point_clone(&self.R)
    }
}

/// Law: hashing the empty message applies no folds and yields the domain's
/// base point.
pub proof fn lemma_hash_to_point_empty(q: pallas::Point)
    ensures
        hash_to_point_spec(q, Seq::<bool>::empty()) == IncompletePoint::Valid(q),
        to_option_spec(hash_to_point_spec(q, Seq::<bool>::empty())) == Some(q),
{
    assert(chunk_vals_spec(Seq::<bool>::empty()) =~= Seq::<nat>::empty());
}

/// Law: a message hashes to the same accumulator as the message explicitly
/// right-padded with `false` to the next multiple of `K`.
pub proof fn lemma_hash_to_point_padding(q: pallas::Point, bits: Seq<bool>)
    ensures
        hash_to_point_spec(q, pad_to_multiple(bits)) == hash_to_point_spec(q, bits),
        hash_spec(q, pad_to_multiple(bits)) == hash_spec(q, bits),
{
    lemma_chunk_vals_padding(bits);
}

/// Law: the hash is a function of the base point and the message alone; two
/// separately constructed domains whose labels agree hash every message to
/// the same result.
pub proof fn lemma_hash_deterministic(d1: HashDomain, d2: HashDomain, bits: Seq<bool>)
    requires
        d1.q() == d2.q(),
    ensures
        hash_spec(d1.q(), bits) == hash_spec(d2.q(), bits),
        to_option_spec(hash_to_point_spec(d1.q(), bits)) == to_option_spec(
            hash_to_point_spec(d2.q(), bits),
        ),
{
}

/// Law: the short commitment is exactly the x-coordinate extraction of the
/// full commitment.
pub proof fn lemma_short_commit_is_extract(
    q: pallas::Point,
    r_gen: pallas::Point,
    bits: Seq<bool>,
    blind: pallas::Scalar,
)
    ensures
        short_commit_spec(q, r_gen, bits, blind) == extract_p_bottom_spec(
            commit_spec(q, r_gen, bits, blind),
        ),
{
}

} // verus!
