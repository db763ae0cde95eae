use vstd::prelude::*;

use crate::constants::K;

verus! {

/// `2^e`.
pub open spec fn pow2(e: nat) -> nat
    decreases e,
{
    if e == 0 {
        1
    } else {
        2 * pow2((e - 1) as nat)
    }
}

/// The unsigned integer whose little-endian bit representation is `bits`
/// (the bit at index 0 is the least significant one).
pub open spec fn lebs2ip_spec(bits: Seq<bool>) -> nat
    decreases bits.len(),
{
    if bits.len() == 0 {
        0
    } else {
        (if bits[0] {
            1nat
        } else {
            0nat
        }) + 2 * lebs2ip_spec(bits.skip(1))
    }
}

/// The `len` low bits of `n`, least significant first.
pub open spec fn i2lebsp_spec(n: nat, len: nat) -> Seq<bool>
    decreases len,
{
    if len == 0 {
        Seq::empty()
    } else {
        seq![n % 2 == 1] + i2lebsp_spec(n / 2, (len - 1) as nat)
    }
}

/// A little-endian bit sequence of length `len` denotes a value below `2^len`.
pub proof fn lemma_lebs2ip_bound(bits: Seq<bool>)
    ensures
        lebs2ip_spec(bits) < pow2(bits.len()),
    decreases bits.len(),
{
    if bits.len() > 0 {
        lemma_lebs2ip_bound(bits.skip(1));
    }
}

/// Appending a bit at the most significant end adds its weighted value.
pub proof fn lemma_lebs2ip_push(bits: Seq<bool>, b: bool)
    ensures
        lebs2ip_spec(bits.push(b)) == lebs2ip_spec(bits) + (if b {
            pow2(bits.len())
        } else {
            0nat
        }),
    decreases bits.len(),
{
    if bits.len() == 0 {
        assert(bits.push(b) =~= seq![b]);
        assert(seq![b].skip(1) =~= Seq::<bool>::empty());
        assert(lebs2ip_spec(Seq::<bool>::empty()) == 0);
        assert(seq![b][0] == b);
        assert(lebs2ip_spec(seq![b]) == (if b {
            1nat
        } else {
            0nat
        }) + 2 * lebs2ip_spec(seq![b].skip(1)));
    } else {
        assert(bits.push(b).skip(1) =~= bits.skip(1).push(b));
        assert(bits.push(b)[0] == bits[0]);
        lemma_lebs2ip_push(bits.skip(1), b);
        assert(pow2(bits.len()) == 2 * pow2((bits.len() - 1) as nat));
    }
}

/// Every `n < 2^len` survives the trip through its `len`-bit representation.
pub proof fn lemma_bits_to_int_round_trip(n: nat, len: nat)
    requires
        n < pow2(len),
    ensures
        lebs2ip_spec(i2lebsp_spec(n, len)) == n,
    decreases len,
{
    if len > 0 {
        let s = i2lebsp_spec(n, len);
        assert(s.skip(1) =~= i2lebsp_spec(n / 2, (len - 1) as nat));
        lemma_bits_to_int_round_trip(n / 2, (len - 1) as nat);
    }
}

/// Every bit pattern survives the trip through its integer value.
pub proof fn lemma_int_to_bits_round_trip(bits: Seq<bool>)
    ensures
        i2lebsp_spec(lebs2ip_spec(bits), bits.len()) == bits,
    decreases bits.len(),
{
    if bits.len() == 0 {
        assert(i2lebsp_spec(lebs2ip_spec(bits), bits.len()) =~= bits);
    } else {
        let v = lebs2ip_spec(bits);
        let rest = lebs2ip_spec(bits.skip(1));
        assert(v % 2 == (if bits[0] {
            1int
        } else {
            0int
        }));
        assert(v / 2 == rest);
        lemma_int_to_bits_round_trip(bits.skip(1));
        assert(i2lebsp_spec(v, bits.len()) =~= bits);
    }
}

/// The sequence of bits representing a u64 in little-endian order, least
/// significant bit first, truncated or zero-extended to `num_bits` entries.
pub fn i2lebsp(value: u64, num_bits: usize) -> (r: Vec<bool>)
    requires
        num_bits <= 64,
    ensures
        r@ == i2lebsp_spec(value as nat, num_bits as nat),
        r@.len() == num_bits,
{
    let mut res: Vec<bool> = Vec::new();
    let mut cur: u64 = value;
    let mut i: usize = 0;
    while i < num_bits
        invariant
            i <= num_bits,
            res@.len() == i,
            res@ + i2lebsp_spec(cur as nat, (num_bits - i) as nat) == i2lebsp_spec(
                value as nat,
                num_bits as nat,
            ),
        decreases num_bits - i,
    {
        let ghost pre = res@;
        let ghost c = cur as nat;
        let ghost rem = (num_bits - i) as nat;
        res.push(cur % 2 == 1);
        cur = cur / 2;
        i = i + 1;
        proof {
            assert(pre + i2lebsp_spec(c, rem) =~= (pre + seq![c % 2 == 1]) + i2lebsp_spec(
                c / 2,
                (rem - 1) as nat,
            ));
            assert(res@ =~= pre + seq![c % 2 == 1]);
        }
    }
    proof {
        assert(res@ + i2lebsp_spec(cur as nat, 0) =~= res@);
    }
    res
}

/// The integer denoted by exactly `K` bits in little-endian order.
pub fn lebs2ip_k(bits: &[bool]) -> (r: u32)
    requires
        bits@.len() == K,
    ensures
        r == lebs2ip_spec(bits@),
        r < 1024,
{
    proof {
        reveal_with_fuel(pow2, 11);
        lemma_lebs2ip_bound(bits@);
    }
    let mut acc: u32 = 0;
    let mut pw: u32 = 1;
    let mut i: usize = 0;
    while i < bits.len()
        invariant
            bits@.len() == K,
            i <= K,
            pw == pow2(i as nat),
            pw <= 1024,
            acc == lebs2ip_spec(bits@.take(i as int)),
            acc < pw,
        decreases bits@.len() - i,
    {
        proof {
            reveal_with_fuel(pow2, 11);
            lemma_lebs2ip_push(bits@.take(i as int), bits@[i as int]);
            assert(bits@.take(i as int).push(bits@[i as int]) =~= bits@.take(i + 1));
            lemma_lebs2ip_bound(bits@.take(i + 1));
        }
        if bits[i] {
            acc = acc + pw;
        }
        if i < bits.len() - 1 {
            pw = pw * 2;
        } else {
            proof {
                reveal_with_fuel(pow2, 11);
            }
            pw = 1024;
        }
        i = i + 1;
    }
    proof {
        assert(bits@.take(K as int) =~= bits@);
    }
    acc
}

/// The sequence of `K` bits in little-endian order representing an integer
/// up to `2^K - 1`.
pub fn i2lebsp_k(value: usize) -> (r: Vec<bool>)
    requires
        value < 1024,
    ensures
        r@ == i2lebsp_spec(value as nat, K as nat),
        r@.len() == K,
{
    i2lebsp(value as u64, K)
}

} // verus!
