use vstd::prelude::*;

verus! {

/// Number of bits in one chunk of the input.
pub const CHUNK_SIZE: usize = 3;

/// The magnitude that a chunk contributes: one plus the two low bits read as a number.
pub open spec fn chunk_magnitude(b0: bool, b1: bool) -> int {
    1 + (if b0 { 1int } else { 0int }) + (if b1 { 2int } else { 0int })
}

/// The signed value of a chunk: its magnitude, negated when the high bit is set.
pub open spec fn chunk_value(b0: bool, b1: bool, b2: bool) -> int {
    if b2 { -chunk_magnitude(b0, b1) } else { chunk_magnitude(b0, b1) }
}

/// Maps three bits to the signed integer that scales the chunk's base.
pub fn encode_chunk(b0: bool, b1: bool, b2: bool) -> (v: i8)
    ensures
        v == chunk_value(b0, b1, b2),
        v != 0,
        -4 <= v <= 4,
{
    let low: i8 = if b0 { 1i8 } else { 0i8 };
    let high: i8 = if b1 { 2i8 } else { 0i8 };
    let magnitude: i8 = 1i8 + low + high;
    if b2 { -magnitude } else { magnitude }
}

/// The value of a chunk is never zero, and lies between -4 and 4.
pub proof fn lemma_chunk_value_range(b0: bool, b1: bool, b2: bool)
    ensures
        chunk_value(b0, b1, b2) != 0,
        -4 <= chunk_value(b0, b1, b2) <= 4,
{
}

/// Two chunks with the same value have the same bits.
pub proof fn lemma_chunk_value_injective(a0: bool, a1: bool, a2: bool, b0: bool, b1: bool, b2: bool)
    requires
        chunk_value(a0, a1, a2) == chunk_value(b0, b1, b2),
    ensures
        a0 == b0,
        a1 == b1,
        a2 == b2,
{
}

/// Every value between -4 and 4 other than zero is the value of a chunk.
pub proof fn lemma_chunk_value_surjective(v: int)
    requires
        -4 <= v <= 4,
        v != 0,
    ensures
        exists|b0: bool, b1: bool, b2: bool| chunk_value(b0, b1, b2) == v,
{
    let m = if v < 0 { -v } else { v };
    let b0 = m == 2 || m == 4;
    let b1 = m == 3 || m == 4;
    let b2 = v < 0;
    assert(chunk_value(b0, b1, b2) == v);
}

/// Flipping the last bit of a chunk negates its value: the values are
/// symmetric about zero.
pub proof fn lemma_chunk_value_symmetric(b0: bool, b1: bool, b2: bool)
    ensures
        chunk_value(b0, b1, !b2) == -chunk_value(b0, b1, b2),
{
}

/// Changing any one bit of a chunk changes its value.
pub proof fn lemma_chunk_value_sensitive(b0: bool, b1: bool, b2: bool)
    ensures
        chunk_value(!b0, b1, b2) != chunk_value(b0, b1, b2),
        chunk_value(b0, !b1, b2) != chunk_value(b0, b1, b2),
        chunk_value(b0, b1, !b2) != chunk_value(b0, b1, b2),
{
}

} // verus!
