//! Control Sequence Introducer (CSI) sequences: the framing `ESC [` followed
//! by parameter bytes, intermediate bytes, and exactly one final byte.

use vstd::prelude::*;
use crate::byte_range::{RangedByte, Utf8Byte, spec_bytes_of, slice_as_bytes};
use crate::fe_seq::ESC_BYTE;

verus! {

/// The byte that introduces a CSI sequence after the escape character: `[`.
pub const INTRO_BYTE: u8 = 0x5b;

/// The final byte of a Select Graphic Rendition sequence: `m`.
pub const SGR_FINAL_BYTE: u8 = 0x6d;

/// CSI parameter byte: `0x30`–`0x3F` (digits, `;`, `:` and private markers).
#[derive(Clone, Copy, Debug, PartialEq, Eq, Structural)]
pub struct CsiParam {
    byte: u8,
}

impl CsiParam {
    #[verifier::type_invariant]
    spec fn type_inv(self) -> bool {
        Self::spec_valid(self.byte)
    }
}

impl RangedByte for CsiParam {
    open spec fn spec_valid(byte: u8) -> bool {
        0x30 <= byte <= 0x3f
    }

    closed spec fn spec_byte(self) -> u8 {
        self.byte
    }

    fn new(byte: u8) -> (r: Option<Self>) {
        if 0x30 <= byte && byte <= 0x3f {
            Some(CsiParam { byte })
        } else {
            None
        }
    }

    fn new_unchecked(byte: u8) -> (r: Self) {
        CsiParam { byte }
    }

    fn is_byte_valid(byte: u8) -> (r: bool) {
        0x30 <= byte && byte <= 0x3f
    }

    fn byte(&self) -> (r: u8) {
        proof {
            use_type_invariant(self);
        }
        self.byte
    }
}

impl Utf8Byte for CsiParam {
    proof fn lemma_valid_is_ascii(byte: u8) {
    }

    fn as_char(&self) -> (c: char) {
        proof {
            use_type_invariant(self);
        }
        self.byte as char
    }
}

/// CSI intermediate byte: `0x20`–`0x2F`.
#[derive(Clone, Copy, Debug, PartialEq, Eq, Structural)]
pub struct CsiInter {
    byte: u8,
}

impl CsiInter {
    #[verifier::type_invariant]
    spec fn type_inv(self) -> bool {
        Self::spec_valid(self.byte)
    }
}

impl RangedByte for CsiInter {
    open spec fn spec_valid(byte: u8) -> bool {
        0x20 <= byte <= 0x2f
    }

    closed spec fn spec_byte(self) -> u8 {
        self.byte
    }

    fn new(byte: u8) -> (r: Option<Self>) {
        if 0x20 <= byte && byte <= 0x2f {
            Some(CsiInter { byte })
        } else {
            None
        }
    }

    fn new_unchecked(byte: u8) -> (r: Self) {
        CsiInter { byte }
    }

    fn is_byte_valid(byte: u8) -> (r: bool) {
        0x20 <= byte && byte <= 0x2f
    }

    fn byte(&self) -> (r: u8) {
        proof {
            use_type_invariant(self);
        }
        self.byte
    }
}

impl Utf8Byte for CsiInter {
    proof fn lemma_valid_is_ascii(byte: u8) {
    }

    fn as_char(&self) -> (c: char) {
        proof {
            use_type_invariant(self);
        }
        self.byte as char
    }
}

/// CSI final byte: `0x40`–`0x7E`.
#[derive(Clone, Copy, Debug, PartialEq, Eq, Structural)]
pub struct CsiFinal {
    byte: u8,
}

impl CsiFinal {
    #[verifier::type_invariant]
    spec fn type_inv(self) -> bool {
        Self::spec_valid(self.byte)
    }
}

impl RangedByte for CsiFinal {
    open spec fn spec_valid(byte: u8) -> bool {
        0x40 <= byte <= 0x7e
    }

    closed spec fn spec_byte(self) -> u8 {
        self.byte
    }

    fn new(byte: u8) -> (r: Option<Self>) {
        if 0x40 <= byte && byte <= 0x7e {
            Some(CsiFinal { byte })
        } else {
            None
        }
    }

    fn new_unchecked(byte: u8) -> (r: Self) {
        CsiFinal { byte }
    }

    fn is_byte_valid(byte: u8) -> (r: bool) {
        0x40 <= byte && byte <= 0x7e
    }

    fn byte(&self) -> (r: u8) {
        proof {
            use_type_invariant(self);
        }
        self.byte
    }
}

impl Utf8Byte for CsiFinal {
    proof fn lemma_valid_is_ascii(byte: u8) {
    }

    fn as_char(&self) -> (c: char) {
        proof {
            use_type_invariant(self);
        }
        self.byte as char
    }
}

/// A byte sequence that is one complete, grammatically valid CSI sequence:
/// `ESC [`, zero or more parameter bytes, zero or more intermediate bytes,
/// and exactly one final byte.
pub open spec fn is_csi_sequence(s: Seq<u8>) -> bool {
    &&& s.len() >= 3
    &&& s[0] == ESC_BYTE
    &&& s[1] == INTRO_BYTE
    &&& CsiFinal::spec_valid(s[s.len() - 1])
    &&& exists|p: int| #[trigger] csi_body_splits_at(s, p)
}

/// The bytes of `s` strictly between the CSI prefix and the final byte fall
/// into a run of parameter bytes up to position `p`, then a run of
/// intermediate bytes.
pub open spec fn csi_body_splits_at(s: Seq<u8>, p: int) -> bool {
    &&& 2 <= p <= s.len() - 1
    &&& forall|i: int| 2 <= i < p ==> CsiParam::spec_valid(#[trigger] s[i])
    &&& forall|i: int| p <= i < s.len() - 1 ==> CsiInter::spec_valid(#[trigger] s[i])
}

/// Framing a run of parameter bytes between the CSI prefix and one final byte
/// yields a grammatically valid CSI sequence.
pub proof fn lemma_csi_frame(params: Seq<u8>, final_byte: u8)
    requires
        forall|i: int| 0 <= i < params.len() ==> CsiParam::spec_valid(#[trigger] params[i]),
        CsiFinal::spec_valid(final_byte),
    ensures
        is_csi_sequence(seq![ESC_BYTE, INTRO_BYTE] + params + seq![final_byte]),
{
    let s = seq![ESC_BYTE, INTRO_BYTE] + params + seq![final_byte];
    assert(s.len() == params.len() + 3);
    let p: int = params.len() as int + 2;
    assert forall|i: int| 2 <= i < p implies CsiParam::spec_valid(#[trigger] s[i]) by {
        assert(s[i] == params[i - 2]);
    }
    assert(csi_body_splits_at(s, p));
}

/// A Control Sequence Introducer sequence: parameter bytes, then intermediate
/// bytes, then one final byte, framed by `ESC [`.
///
/// Order within each byte class is caller-significant and preserved verbatim.
#[derive(Debug, PartialEq, Eq)]
pub struct Csi {
    /// CSI parameter bytes. See [`CsiParam`].
    pub parameter_bytes: Vec<CsiParam>,
    /// CSI intermediate bytes. See [`CsiInter`].
    pub intermediate_bytes: Vec<CsiInter>,
    /// CSI final byte. See [`CsiFinal`].
    pub final_byte: CsiFinal,
}

impl Csi {
    /// The exact bytes this sequence serializes to.
    pub open spec fn spec_serialize(self) -> Seq<u8> {
        seq![ESC_BYTE, INTRO_BYTE] + spec_bytes_of(self.parameter_bytes@)
            + spec_bytes_of(self.intermediate_bytes@) + seq![self.final_byte.spec_byte()]
    }

    /// Write the two-byte prefix of a CSI sequence: the escape character,
    /// then `[`. Used by every encoder that builds a CSI sequence
    /// incrementally.
    pub fn write_begin(out: &mut Vec<u8>)
        ensures
            final(out)@ == old(out)@ + seq![ESC_BYTE, INTRO_BYTE],
    {
        out.push(ESC_BYTE);
        out.push(INTRO_BYTE);
        proof {
            assert(out@ =~= old(out)@ + seq![ESC_BYTE, INTRO_BYTE]);
        }
    }

    /// Append this sequence's bytes to `out`: the prefix, the parameter
    /// bytes, the intermediate bytes, then the final byte. What is appended
    /// is one grammatically valid CSI sequence.
    pub fn write_to(&self, out: &mut Vec<u8>)
        ensures
            final(out)@ == old(out)@ + self.spec_serialize(),
            is_csi_sequence(self.spec_serialize()),
    {
        Self::write_begin(out);
        let mut params = slice_as_bytes(self.parameter_bytes.as_slice());
        let mut inters = slice_as_bytes(self.intermediate_bytes.as_slice());
        out.append(&mut params);
        out.append(&mut inters);
        let fb = self.final_byte.byte();
        out.push(fb);
        proof {
            assert(out@ =~= old(out)@ + self.spec_serialize());
            lemma_csi_parts(
                spec_bytes_of(self.parameter_bytes@),
                spec_bytes_of(self.intermediate_bytes@),
                fb,
            );
        }
    }
}

/// Framing parameter bytes, then intermediate bytes, then one final byte
/// behind the CSI prefix yields a grammatically valid CSI sequence.
pub proof fn lemma_csi_parts(params: Seq<u8>, inters: Seq<u8>, final_byte: u8)
    requires
        forall|i: int| 0 <= i < params.len() ==> CsiParam::spec_valid(#[trigger] params[i]),
        forall|i: int| 0 <= i < inters.len() ==> CsiInter::spec_valid(#[trigger] inters[i]),
        CsiFinal::spec_valid(final_byte),
    ensures
        is_csi_sequence(seq![ESC_BYTE, INTRO_BYTE] + params + inters + seq![final_byte]),
{
    let s = seq![ESC_BYTE, INTRO_BYTE] + params + inters + seq![final_byte];
    assert(s.len() == params.len() + inters.len() + 3);
    let p: int = params.len() as int + 2;
    assert forall|i: int| 2 <= i < p implies CsiParam::spec_valid(#[trigger] s[i]) by {
        assert(s[i] == params[i - 2]);
    }
    assert forall|i: int| p <= i < s.len() - 1 implies CsiInter::spec_valid(#[trigger] s[i]) by {
        assert(s[i] == inters[i - p]);
    }
    assert(csi_body_splits_at(s, p));
}

} // verus!
