//! Select Graphic Rendition (SGR) parameters: the CSI sequences with final
//! byte `m` that change text attributes, and their exact ECMA-48 numeric
//! parameter encoding.

use vstd::prelude::*;
use crate::byte_range::RangedByte;
use crate::csi::{Csi, CsiParam, INTRO_BYTE, SGR_FINAL_BYTE, is_csi_sequence, lemma_csi_frame};
use crate::decimal::{dec_u8, lemma_dec_u8_digits, write_u8_dec};
use crate::fe_seq::ESC_BYTE;

verus! {

/// The byte that separates SGR parameters: `;`.
pub const PARAM_SEP_BYTE: u8 = 0x3b;

/// Every byte of `s` is a legal CSI parameter byte.
pub open spec fn all_param_bytes(s: Seq<u8>) -> bool {
    forall|i: int| 0 <= i < s.len() ==> CsiParam::spec_valid(#[trigger] s[i])
}

/// Concatenating two runs of parameter bytes yields a run of parameter bytes.
pub proof fn lemma_param_run_concat(a: Seq<u8>, b: Seq<u8>)
    requires
        all_param_bytes(a),
        all_param_bytes(b),
    ensures
        all_param_bytes(a + b),
{
    assert forall|i: int| 0 <= i < (a + b).len() implies CsiParam::spec_valid(
        #[trigger] (a + b)[i],
    ) by {
        if i < a.len() {
            assert((a + b)[i] == a[i]);
        } else {
            assert((a + b)[i] == b[i - a.len()]);
        }
    }
}

/// Select Graphic Rendition parameters, one variant per ECMA-48 code.
///
/// The extended-color variants carry an [`SgrColor`] payload and encode as
/// the multi-part parameters `38;…`, `48;…` and `58;…`.
#[derive(Clone, Copy, Debug, PartialEq, Eq, Structural)]
pub enum Sgr {
    Reset,
    WeightBoldOn,
    WeightThinOn,
    ItalicOn,
    UnderlineSingle,
    BlinkSlow,
    BlinkRapid,
    Invert,
    ConcealOn,
    StrikethroughOn,
    FontPrimary,
    Font1,
    Font2,
    Font3,
    Font4,
    Font5,
    Font6,
    Font7,
    Font8,
    Font9,
    Fraktur,
    UnderlineDouble,
    WeightAllOff,
    ItalicOff,
    UnderlineNone,
    BlinkNone,
    ProportionalSpacingOn,
    ReversedOff,
    ConcealOff,
    StrikethroughOff,
    Foreground1,
    Foreground2,
    Foreground3,
    Foreground4,
    Foreground5,
    Foreground6,
    Foreground7,
    Foreground8,
    Foreground(SgrColor),
    ForegroundDefault,
    Background1,
    Background2,
    Background3,
    Background4,
    Background5,
    Background6,
    Background7,
    Background8,
    Background(SgrColor),
    BackgroundDefault,
    ProportionalSpacingOff,
    FrameFramed,
    FrameEncircled,
    OverlinedOn,
    FrameNone,
    OverlinedOff,
    UnderlineColor(SgrColor),
    UnderlineColorDefault,
}

impl Sgr {
    /// The ECMA-48 numeric code of this parameter. For the extended-color
    /// variants this is the leading code (`38`, `48` or `58`) that the color
    /// payload follows.
    pub open spec fn spec_code(self) -> u8 {
        match self {
            Sgr::Reset => 0,
            Sgr::WeightBoldOn => 1,
            Sgr::WeightThinOn => 2,
            Sgr::ItalicOn => 3,
            Sgr::UnderlineSingle => 4,
            Sgr::BlinkSlow => 5,
            Sgr::BlinkRapid => 6,
            Sgr::Invert => 7,
            Sgr::ConcealOn => 8,
            Sgr::StrikethroughOn => 9,
            Sgr::FontPrimary => 10,
            Sgr::Font1 => 11,
            Sgr::Font2 => 12,
            Sgr::Font3 => 13,
            Sgr::Font4 => 14,
            Sgr::Font5 => 15,
            Sgr::Font6 => 16,
            Sgr::Font7 => 17,
            Sgr::Font8 => 18,
            Sgr::Font9 => 19,
            Sgr::Fraktur => 20,
            Sgr::UnderlineDouble => 21,
            Sgr::WeightAllOff => 22,
            Sgr::ItalicOff => 23,
            Sgr::UnderlineNone => 24,
            Sgr::BlinkNone => 25,
            Sgr::ProportionalSpacingOn => 26,
            Sgr::ReversedOff => 27,
            Sgr::ConcealOff => 28,
            Sgr::StrikethroughOff => 29,
            Sgr::Foreground1 => 30,
            Sgr::Foreground2 => 31,
            Sgr::Foreground3 => 32,
            Sgr::Foreground4 => 33,
            Sgr::Foreground5 => 34,
            Sgr::Foreground6 => 35,
            Sgr::Foreground7 => 36,
            Sgr::Foreground8 => 37,
            Sgr::Foreground(_) => 38,
            Sgr::ForegroundDefault => 39,
            Sgr::Background1 => 40,
            Sgr::Background2 => 41,
            Sgr::Background3 => 42,
            Sgr::Background4 => 43,
            Sgr::Background5 => 44,
            Sgr::Background6 => 45,
            Sgr::Background7 => 46,
            Sgr::Background8 => 47,
            Sgr::Background(_) => 48,
            Sgr::BackgroundDefault => 49,
            Sgr::ProportionalSpacingOff => 50,
            Sgr::FrameFramed => 51,
            Sgr::FrameEncircled => 52,
            Sgr::OverlinedOn => 53,
            Sgr::FrameNone => 54,
            Sgr::OverlinedOff => 55,
            Sgr::UnderlineColor(_) => 58,
            Sgr::UnderlineColorDefault => 59,
        }
    }

    /// The exact parameter text of this value: its numeric code in decimal,
    /// followed, for the extended-color variants, by the color's own
    /// sub-encoding.
    pub open spec fn spec_params(self) -> Seq<u8> {
        match self {
            Sgr::Foreground(c) => dec_u8(38) + seq![PARAM_SEP_BYTE] + c.spec_params(),
            Sgr::Background(c) => dec_u8(48) + seq![PARAM_SEP_BYTE] + c.spec_params(),
            Sgr::UnderlineColor(c) => dec_u8(58) + seq![PARAM_SEP_BYTE] + c.spec_params(),
            _ => dec_u8(self.spec_code()),
        }
    }

    /// The exact bytes of the complete SGR sequence for this value:
    /// `ESC [`, the parameter text, then the final byte `m`.
    pub open spec fn spec_serialize(self) -> Seq<u8> {
        seq![ESC_BYTE, INTRO_BYTE] + self.spec_params() + seq![SGR_FINAL_BYTE]
    }

    /// The ECMA-48 numeric code of this parameter.
    pub fn code(&self) -> (r: u8)
        ensures
            r == self.spec_code(),
    {
        match self {
            Sgr::Reset => 0,
            Sgr::WeightBoldOn => 1,
            Sgr::WeightThinOn => 2,
            Sgr::ItalicOn => 3,
            Sgr::UnderlineSingle => 4,
            Sgr::BlinkSlow => 5,
            Sgr::BlinkRapid => 6,
            Sgr::Invert => 7,
            Sgr::ConcealOn => 8,
            Sgr::StrikethroughOn => 9,
            Sgr::FontPrimary => 10,
            Sgr::Font1 => 11,
            Sgr::Font2 => 12,
            Sgr::Font3 => 13,
            Sgr::Font4 => 14,
            Sgr::Font5 => 15,
            Sgr::Font6 => 16,
            Sgr::Font7 => 17,
            Sgr::Font8 => 18,
            Sgr::Font9 => 19,
            Sgr::Fraktur => 20,
            Sgr::UnderlineDouble => 21,
            Sgr::WeightAllOff => 22,
            Sgr::ItalicOff => 23,
            Sgr::UnderlineNone => 24,
            Sgr::BlinkNone => 25,
            Sgr::ProportionalSpacingOn => 26,
            Sgr::ReversedOff => 27,
            Sgr::ConcealOff => 28,
            Sgr::StrikethroughOff => 29,
            Sgr::Foreground1 => 30,
            Sgr::Foreground2 => 31,
            Sgr::Foreground3 => 32,
            Sgr::Foreground4 => 33,
            Sgr::Foreground5 => 34,
            Sgr::Foreground6 => 35,
            Sgr::Foreground7 => 36,
            Sgr::Foreground8 => 37,
            Sgr::Foreground(_) => 38,
            Sgr::ForegroundDefault => 39,
            Sgr::Background1 => 40,
            Sgr::Background2 => 41,
            Sgr::Background3 => 42,
            Sgr::Background4 => 43,
            Sgr::Background5 => 44,
            Sgr::Background6 => 45,
            Sgr::Background7 => 46,
            Sgr::Background8 => 47,
            Sgr::Background(_) => 48,
            Sgr::BackgroundDefault => 49,
            Sgr::ProportionalSpacingOff => 50,
            Sgr::FrameFramed => 51,
            Sgr::FrameEncircled => 52,
            Sgr::OverlinedOn => 53,
            Sgr::FrameNone => 54,
            Sgr::OverlinedOff => 55,
            Sgr::UnderlineColor(_) => 58,
            Sgr::UnderlineColorDefault => 59,
        }
    }

    /// Append only this value's bare numeric parameter text to `out` — no
    /// prefix and no final byte — so that composite encoders can concatenate
    /// several parameters behind one shared prefix and final byte.
    pub fn write_params_to(&self, out: &mut Vec<u8>)
        ensures
            final(out)@ == old(out)@ + self.spec_params(),
    {
        match self {
            Sgr::Foreground(c) => {
                write_u8_dec(38, out);
                out.push(PARAM_SEP_BYTE);
                c.write_params_to(out);
            },
            Sgr::Background(c) => {
                write_u8_dec(48, out);
                out.push(PARAM_SEP_BYTE);
                c.write_params_to(out);
            },
            Sgr::UnderlineColor(c) => {
                write_u8_dec(58, out);
                out.push(PARAM_SEP_BYTE);
                c.write_params_to(out);
            },
            _ => {
                let code = self.code();
                write_u8_dec(code, out);
            },
        }
        proof {
            assert(out@ =~= old(out)@ + self.spec_params());
        }
    }

    /// Append the complete SGR sequence for this value to `out`. What is
    /// appended is one grammatically valid CSI sequence.
    pub fn write_to(&self, out: &mut Vec<u8>)
        ensures
            final(out)@ == old(out)@ + self.spec_serialize(),
            is_csi_sequence(self.spec_serialize()),
    {
        Csi::write_begin(out);
        self.write_params_to(out);
        out.push(SGR_FINAL_BYTE);
        proof {
            assert(out@ =~= old(out)@ + self.spec_serialize());
            lemma_sgr_params_valid(*self);
            lemma_csi_frame(self.spec_params(), SGR_FINAL_BYTE);
        }
    }
}

/// Parameter payload of the extended-color SGR codes: an 8-bit table index,
/// or three independent 8-bit RGB channels.
#[derive(Clone, Copy, Debug, PartialEq, Eq, Structural)]
pub enum SgrColor {
    Table(u8),
    Rgb(u8, u8, u8),
}

impl SgrColor {
    /// The exact parameter text of this color: `5;<n>` for a table index,
    /// `2;<r>;<g>;<b>` for true color, each part in decimal.
    pub open spec fn spec_params(self) -> Seq<u8> {
        match self {
            SgrColor::Table(n) => dec_u8(5) + seq![PARAM_SEP_BYTE] + dec_u8(n),
            SgrColor::Rgb(r, g, b) => dec_u8(2) + seq![PARAM_SEP_BYTE] + dec_u8(r)
                + seq![PARAM_SEP_BYTE] + dec_u8(g) + seq![PARAM_SEP_BYTE] + dec_u8(b),
        }
    }

    /// Append this color's bare parameter text to `out`.
    pub fn write_params_to(&self, out: &mut Vec<u8>)
        ensures
            final(out)@ == old(out)@ + self.spec_params(),
    {
        match self {
            SgrColor::Table(n) => {
                write_u8_dec(5, out);
                out.push(PARAM_SEP_BYTE);
                write_u8_dec(*n, out);
            },
            SgrColor::Rgb(r, g, b) => {
                write_u8_dec(2, out);
                out.push(PARAM_SEP_BYTE);
                write_u8_dec(*r, out);
                out.push(PARAM_SEP_BYTE);
                write_u8_dec(*g, out);
                out.push(PARAM_SEP_BYTE);
                write_u8_dec(*b, out);
            },
        }
        proof {
            assert(out@ =~= old(out)@ + self.spec_params());
        }
    }
}

/// Every byte of a color's parameter text is a legal CSI parameter byte.
pub proof fn lemma_color_params_valid(c: SgrColor)
    ensures
        all_param_bytes(c.spec_params()),
{
    let sep = seq![PARAM_SEP_BYTE];
    assert(all_param_bytes(sep));
    match c {
        SgrColor::Table(n) => {
            lemma_dec_u8_digits(5);
            lemma_dec_u8_digits(n);
            lemma_param_run_concat(dec_u8(5), sep);
            lemma_param_run_concat(dec_u8(5) + sep, dec_u8(n));
        },
        SgrColor::Rgb(r, g, b) => {
            lemma_dec_u8_digits(2);
            lemma_dec_u8_digits(r);
            lemma_dec_u8_digits(g);
            lemma_dec_u8_digits(b);
            lemma_param_run_concat(dec_u8(2), sep);
            lemma_param_run_concat(dec_u8(2) + sep, dec_u8(r));
            lemma_param_run_concat(dec_u8(2) + sep + dec_u8(r), sep);
            lemma_param_run_concat(dec_u8(2) + sep + dec_u8(r) + sep, dec_u8(g));
            lemma_param_run_concat(dec_u8(2) + sep + dec_u8(r) + sep + dec_u8(g), sep);
            lemma_param_run_concat(
                dec_u8(2) + sep + dec_u8(r) + sep + dec_u8(g) + sep,
                dec_u8(b),
            );
        },
    }
}

/// Every byte of an SGR value's parameter text is a legal CSI parameter byte.
pub proof fn lemma_sgr_params_valid(s: Sgr)
    ensures
        all_param_bytes(s.spec_params()),
{
    let sep = seq![PARAM_SEP_BYTE];
    assert(all_param_bytes(sep));
    match s {
        Sgr::Foreground(c) => {
            lemma_dec_u8_digits(38);
            lemma_color_params_valid(c);
            lemma_param_run_concat(dec_u8(38), sep);
            lemma_param_run_concat(dec_u8(38) + sep, c.spec_params());
        },
        Sgr::Background(c) => {
            lemma_dec_u8_digits(48);
            lemma_color_params_valid(c);
            lemma_param_run_concat(dec_u8(48), sep);
            lemma_param_run_concat(dec_u8(48) + sep, c.spec_params());
        },
        Sgr::UnderlineColor(c) => {
            lemma_dec_u8_digits(58);
            lemma_color_params_valid(c);
            lemma_param_run_concat(dec_u8(58), sep);
            lemma_param_run_concat(dec_u8(58) + sep, c.spec_params());
        },
        _ => {
            lemma_dec_u8_digits(s.spec_code());
        },
    }
}

} // verus!
