//! Decimal encoding of one-byte numeric parameters: the shortest ASCII digit
//! run, with no leading zeros, as ECMA-48 parameter strings use.

use vstd::prelude::*;
use crate::byte_range::RangedByte;
use crate::csi::CsiParam;

verus! {

/// The ASCII digit `0`.
pub const DIGIT_ZERO: u8 = 0x30;

/// The decimal digits of `n`, as ASCII bytes, with no leading zeros.
pub open spec fn dec_u8(n: u8) -> Seq<u8> {
    if n < 10 {
        seq![(DIGIT_ZERO + n) as u8]
    } else if n < 100 {
        seq![(DIGIT_ZERO + n / 10) as u8, (DIGIT_ZERO + n % 10) as u8]
    } else {
        seq![
            (DIGIT_ZERO + n / 100) as u8,
            (DIGIT_ZERO + (n / 10) % 10) as u8,
            (DIGIT_ZERO + n % 10) as u8,
        ]
    }
}

/// Every byte of a decimal encoding is an ASCII digit, and in particular a
/// legal CSI parameter byte.
pub proof fn lemma_dec_u8_digits(n: u8)
    ensures
        forall|i: int| 0 <= i < dec_u8(n).len()
            ==> 0x30 <= #[trigger] dec_u8(n)[i] <= 0x39,
        forall|i: int| 0 <= i < dec_u8(n).len()
            ==> CsiParam::spec_valid(#[trigger] dec_u8(n)[i]),
{
}

/// Append the decimal digits of `n` to `out`.
pub fn write_u8_dec(n: u8, out: &mut Vec<u8>)
    ensures
        final(out)@ == old(out)@ + dec_u8(n),
{
    if n < 10 {
        out.push(DIGIT_ZERO + n);
    } else if n < 100 {
        out.push(DIGIT_ZERO + n / 10);
        out.push(DIGIT_ZERO + n % 10);
    } else {
        out.push(DIGIT_ZERO + n / 100);
        out.push(DIGIT_ZERO + (n / 10) % 10);
        out.push(DIGIT_ZERO + n % 10);
    }
    proof {
        assert(out@ =~= old(out)@ + dec_u8(n));
    }
}

} // verus!
