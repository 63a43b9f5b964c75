use vstd::prelude::*;

verus! {

/// The ASCII digit of a number below ten.
pub open spec fn digit(d: nat) -> u8
    recommends
        d < 10,
{
    (48 + d) as u8
}

/// The decimal digits of a number as ASCII, the least significant first.
pub open spec fn digits_from_least(n: nat) -> Seq<u8>
    decreases n,
{
    if n < 10 {
        seq![digit(n)]
    } else {
        seq![digit(n % 10)] + digits_from_least(n / 10)
    }
}

/// The decimal digits of a number as ASCII, as they are written: the most
/// significant first.
pub open spec fn decimal(n: nat) -> Seq<u8> {
    digits_from_least(n).reverse()
}

/// Appends the decimal digits of `n`.
pub fn push_decimal(buf: &mut Vec<u8>, n: u64)
    ensures
        final(buf)@ == old(buf)@ + decimal(n as nat),
{
    let mut digits: Vec<u8> = Vec::new();
    let mut rest: u64 = n;
    digits.push(48 + (rest % 10) as u8);
    rest = rest / 10;
    while rest > 0
        invariant
            digits@.len() >= 1,
            digits_from_least(n as nat) == if rest > 0 {
                digits@ + digits_from_least(rest as nat)
            } else {
                digits@
            },
        decreases rest,
    {
        digits.push(48 + (rest % 10) as u8);
        rest = rest / 10;
    }
    let len = digits.len();
    let mut i: usize = len;
    while i > 0
        invariant
            i <= len,
            len == digits@.len(),
            buf@ == old(buf)@ + Seq::new((len - i) as nat, |k: int| digits@[len - 1 - k]),
        decreases i,
    {
        i -= 1;
        buf.push(digits[i]);
    }
}

/// Appends the bytes of a slice.
pub fn push_bytes(buf: &mut Vec<u8>, bytes: &[u8])
    ensures
        final(buf)@ == old(buf)@ + bytes@,
{
    buf.extend_from_slice(bytes);
}

} // verus!
