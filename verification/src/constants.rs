use vstd::prelude::*;

verus! {

use vstd::string::StringSliceAdditionalSpecFns;
use vstd::utf8::is_ascii_chars;
use vstd::utf8::is_ascii_chars_encode_utf8;

/// Number of bits handled per accumulation step (the chunk width).
pub const K: usize = 10;

/// Maximum number of chunks that a single message may contain; a message is
/// therefore at most `C * K` bits long.
pub const C: usize = 253;

/// Personalization label under which each domain's base point `Q` is derived.
pub const Q_PERSONALIZATION: &'static str = "z.cash:SinsemillaQ";

/// Personalization label under which the per-chunk table points are derived.
pub const S_PERSONALIZATION: &'static str = "z.cash:SinsemillaS";

/// Personalization label under which each commitment domain's blinding
/// generator `R` is derived.
pub const R_PERSONALIZATION: &'static str = "z.cash:SinsemillaR";

/// The three personalization labels are ASCII strings of 18 bytes each.
pub proof fn lemma_personalization_byte_lens()
    ensures
        Q_PERSONALIZATION.spec_bytes().len() == 18,
        S_PERSONALIZATION.spec_bytes().len() == 18,
        R_PERSONALIZATION.spec_bytes().len() == 18,
{
    reveal_strlit("z.cash:SinsemillaQ");
    reveal_strlit("z.cash:SinsemillaS");
    reveal_strlit("z.cash:SinsemillaR");
    assert(is_ascii_chars(Q_PERSONALIZATION@));
    assert(is_ascii_chars(S_PERSONALIZATION@));
    assert(is_ascii_chars(R_PERSONALIZATION@));
    is_ascii_chars_encode_utf8(Q_PERSONALIZATION@);
    is_ascii_chars_encode_utf8(S_PERSONALIZATION@);
    is_ascii_chars_encode_utf8(R_PERSONALIZATION@);
}

} // verus!
