//! `Fe`-type escape sequences: the ECMA-48 sequences introduced by the escape
//! character, including the framed string variants closed by a String
//! Terminator. This system always emits the 7-bit encoding: every sequence
//! begins with the escape byte, never a raw 8-bit C1 control byte.

use vstd::prelude::*;
use crate::byte_range::{RangedByte, Utf8Byte, spec_bytes_of, slice_as_bytes};
use crate::csi::{Csi, INTRO_BYTE, is_csi_sequence};

verus! {

/// The ASCII escape character, which begins every sequence.
pub const ESC_BYTE: u8 = 0x1b;

/// The byte that identifies a String Terminator after the escape character.
pub const ST_BYTE: u8 = 0x9c;

/// The two bytes of a String Terminator sequence, which closes every framed
/// string body.
pub open spec fn spec_string_terminator() -> Seq<u8> {
    seq![ESC_BYTE, ST_BYTE]
}

/// Character type for [`FeSeq::DeviceControlString`]: format effectors
/// (`0x08`–`0x0D`) and printable bytes (`0x20`–`0x7E`).
#[derive(Clone, Copy, Debug, PartialEq, Eq, Structural)]
pub struct DcsChar {
    byte: u8,
}

impl DcsChar {
    #[verifier::type_invariant]
    spec fn type_inv(self) -> bool {
        Self::spec_valid(self.byte)
    }

    /// Every printable byte is legal in a device-control string body.
    pub fn from_printable(value: Printable) -> (r: Self)
        ensures
            r.spec_byte() == value.spec_byte(),
    {
        Self::new_unchecked(value.byte())
    }

    /// Every format effector is legal in a device-control string body.
    pub fn from_format_effector(value: FormatEffector) -> (r: Self)
        ensures
            r.spec_byte() == value.spec_byte(),
    {
        Self::new_unchecked(value.byte())
    }
}

impl RangedByte for DcsChar {
    open spec fn spec_valid(byte: u8) -> bool {
        (0x08 <= byte <= 0x0d) || (0x20 <= byte <= 0x7e)
    }

    closed spec fn spec_byte(self) -> u8 {
        self.byte
    }

    fn new(byte: u8) -> (r: Option<Self>) {
        if (0x08 <= byte && byte <= 0x0d) || (0x20 <= byte && byte <= 0x7e) {
            Some(DcsChar { byte })
        } else {
            None
        }
    }

    fn new_unchecked(byte: u8) -> (r: Self) {
        DcsChar { byte }
    }

    fn is_byte_valid(byte: u8) -> (r: bool) {
        (0x08 <= byte && byte <= 0x0d) || (0x20 <= byte && byte <= 0x7e)
    }

    fn byte(&self) -> (r: u8) {
        proof {
            use_type_invariant(self);
        }
        self.byte
    }
}

impl Utf8Byte for DcsChar {
    proof fn lemma_valid_is_ascii(byte: u8) {
    }

    fn as_char(&self) -> (c: char) {
        proof {
            use_type_invariant(self);
        }
        self.byte as char
    }
}

/// Character type for [`FeSeq::StartOfString`]: every byte other than
/// `0x97` and `0x9C` (the String Terminator's identifying byte), that is,
/// `0x00`–`0x96`, `0x98`–`0x9B` and `0x9D`–`0xFF`.
#[derive(Clone, Copy, Debug, PartialEq, Eq, Structural)]
pub struct SosChar {
    byte: u8,
}

impl SosChar {
    #[verifier::type_invariant]
    spec fn type_inv(self) -> bool {
        Self::spec_valid(self.byte)
    }
}

impl RangedByte for SosChar {
    open spec fn spec_valid(byte: u8) -> bool {
        byte <= 0x96 || (0x98 <= byte <= 0x9b) || 0x9d <= byte
    }

    closed spec fn spec_byte(self) -> u8 {
        self.byte
    }

    fn new(byte: u8) -> (r: Option<Self>) {
        if byte <= 0x96 || (0x98 <= byte && byte <= 0x9b) || 0x9d <= byte {
            Some(SosChar { byte })
        } else {
            None
        }
    }

    fn new_unchecked(byte: u8) -> (r: Self) {
        SosChar { byte }
    }

    fn is_byte_valid(byte: u8) -> (r: bool) {
        byte <= 0x96 || (0x98 <= byte && byte <= 0x9b) || 0x9d <= byte
    }

    fn byte(&self) -> (r: u8) {
        proof {
            use_type_invariant(self);
        }
        self.byte
    }
}

/// Format effector character: `0x08`–`0x0D` (backspace through carriage
/// return).
#[derive(Clone, Copy, Debug, PartialEq, Eq, Structural)]
pub struct FormatEffector {
    byte: u8,
}

impl FormatEffector {
    #[verifier::type_invariant]
    spec fn type_inv(self) -> bool {
        Self::spec_valid(self.byte)
    }
}

impl RangedByte for FormatEffector {
    open spec fn spec_valid(byte: u8) -> bool {
        0x08 <= byte <= 0x0d
    }

    closed spec fn spec_byte(self) -> u8 {
        self.byte
    }

    fn new(byte: u8) -> (r: Option<Self>) {
        if 0x08 <= byte && byte <= 0x0d {
            Some(FormatEffector { byte })
        } else {
            None
        }
    }

    fn new_unchecked(byte: u8) -> (r: Self) {
        FormatEffector { byte }
    }

    fn is_byte_valid(byte: u8) -> (r: bool) {
        0x08 <= byte && byte <= 0x0d
    }

    fn byte(&self) -> (r: u8) {
        proof {
            use_type_invariant(self);
        }
        self.byte
    }
}

/// ASCII printable character: `0x20`–`0x7E`.
#[derive(Clone, Copy, Debug, PartialEq, Eq, Structural)]
pub struct Printable {
    byte: u8,
}

impl Printable {
    #[verifier::type_invariant]
    spec fn type_inv(self) -> bool {
        Self::spec_valid(self.byte)
    }
}

impl RangedByte for Printable {
    open spec fn spec_valid(byte: u8) -> bool {
        0x20 <= byte <= 0x7e
    }

    closed spec fn spec_byte(self) -> u8 {
        self.byte
    }

    fn new(byte: u8) -> (r: Option<Self>) {
        if 0x20 <= byte && byte <= 0x7e {
            Some(Printable { byte })
        } else {
            None
        }
    }

    fn new_unchecked(byte: u8) -> (r: Self) {
        Printable { byte }
    }

    fn is_byte_valid(byte: u8) -> (r: bool) {
        0x20 <= byte && byte <= 0x7e
    }

    fn byte(&self) -> (r: u8) {
        proof {
            use_type_invariant(self);
        }
        self.byte
    }
}

impl Utf8Byte for Printable {
    proof fn lemma_valid_is_ascii(byte: u8) {
    }

    fn as_char(&self) -> (c: char) {
        proof {
            use_type_invariant(self);
        }
        self.byte as char
    }
}

/// `Fe`-type escape sequence: one variant per ECMA-48 `Fe` function. Each
/// value is a complete, independent sequence description.
///
/// The framed variants ([`FeSeq::DeviceControlString`],
/// [`FeSeq::StartOfString`], [`FeSeq::OsCommand`], [`FeSeq::PrivacyMessage`],
/// [`FeSeq::AppProgramCommand`]) own a body of bytes validated at
/// construction, and their serialization always appends a String Terminator
/// after the body.
#[derive(Debug, PartialEq, Eq)]
pub enum FeSeq {
    Pad,
    HighOctetPreset,
    BreakPermittedHere,
    NoBreakHere,
    Index,
    NextLine,
    StartOfSelArea,
    EndOfSelArea,
    HorizTabSet,
    RightJustify,
    VertTabSet,
    PartLineDown,
    PartLineUp,
    ReverseIndex,
    SingleShift2,
    SingleShift3,
    DeviceControlString(Vec<DcsChar>),
    PrivateUse1,
    PrivateUse2,
    SetTransmitState,
    CancelCharacter,
    MessageWaiting,
    StartOfProtArea,
    EndOfProtArea,
    StartOfString(Vec<SosChar>),
    /// Single Graphic Character Introducer.
    ///
    /// Intended to allow an arbitrary Unicode character to be printed.
    /// This is to be followed by that character.
    Sgci,
    /// Single Character Introducer.
    ///
    /// To be followed by a [`Printable`] or [`FormatEffector`], which will be
    /// printed as ASCII no matter what graphic or control sets are in use.
    Sci,
    Csi(Csi),
    StringTerminator,
    OsCommand(Vec<Printable>),
    PrivacyMessage(Vec<Printable>),
    AppProgramCommand(Vec<Printable>),
}

impl FeSeq {
    /// The byte that, after the escape character, identifies this sequence.
    ///
    /// Each variant maps to its ECMA-48-assigned byte in the C1 domain
    /// `0x80`–`0x9F`, except CSI, whose byte is the ASCII `[`: this system
    /// always emits the 7-bit two-byte escape form, and by that historical
    /// convention the CSI introducer is `[` rather than a C1 byte.
    pub open spec fn spec_kind_byte(self) -> u8 {
        match self {
            FeSeq::Pad => 0x80,
            FeSeq::HighOctetPreset => 0x81,
            FeSeq::BreakPermittedHere => 0x82,
            FeSeq::NoBreakHere => 0x83,
            FeSeq::Index => 0x84,
            FeSeq::NextLine => 0x85,
            FeSeq::StartOfSelArea => 0x86,
            FeSeq::EndOfSelArea => 0x87,
            FeSeq::HorizTabSet => 0x88,
            FeSeq::RightJustify => 0x89,
            FeSeq::VertTabSet => 0x8a,
            FeSeq::PartLineDown => 0x8b,
            FeSeq::PartLineUp => 0x8c,
            FeSeq::ReverseIndex => 0x8d,
            FeSeq::SingleShift2 => 0x8e,
            FeSeq::SingleShift3 => 0x8f,
            FeSeq::DeviceControlString(_) => 0x90,
            FeSeq::PrivateUse1 => 0x91,
            FeSeq::PrivateUse2 => 0x92,
            FeSeq::SetTransmitState => 0x93,
            FeSeq::CancelCharacter => 0x94,
            FeSeq::MessageWaiting => 0x95,
            FeSeq::StartOfProtArea => 0x96,
            FeSeq::EndOfProtArea => 0x97,
            FeSeq::StartOfString(_) => 0x98,
            FeSeq::Sgci => 0x99,
            FeSeq::Sci => 0x9a,
            FeSeq::Csi(_) => INTRO_BYTE,
            FeSeq::StringTerminator => ST_BYTE,
            FeSeq::OsCommand(_) => 0x9d,
            FeSeq::PrivacyMessage(_) => 0x9e,
            FeSeq::AppProgramCommand(_) => 0x9f,
        }
    }

    /// Return the first byte after the escape character that represents this
    /// sequence.
    pub fn kind_byte(&self) -> (r: u8)
        ensures
            r == self.spec_kind_byte(),
    {
        match self {
            FeSeq::Pad => 0x80,
            FeSeq::HighOctetPreset => 0x81,
            FeSeq::BreakPermittedHere => 0x82,
            FeSeq::NoBreakHere => 0x83,
            FeSeq::Index => 0x84,
            FeSeq::NextLine => 0x85,
            FeSeq::StartOfSelArea => 0x86,
            FeSeq::EndOfSelArea => 0x87,
            FeSeq::HorizTabSet => 0x88,
            FeSeq::RightJustify => 0x89,
            FeSeq::VertTabSet => 0x8a,
            FeSeq::PartLineDown => 0x8b,
            FeSeq::PartLineUp => 0x8c,
            FeSeq::ReverseIndex => 0x8d,
            FeSeq::SingleShift2 => 0x8e,
            FeSeq::SingleShift3 => 0x8f,
            FeSeq::DeviceControlString(..) => 0x90,
            FeSeq::PrivateUse1 => 0x91,
            FeSeq::PrivateUse2 => 0x92,
            FeSeq::SetTransmitState => 0x93,
            FeSeq::CancelCharacter => 0x94,
            FeSeq::MessageWaiting => 0x95,
            FeSeq::StartOfProtArea => 0x96,
            FeSeq::EndOfProtArea => 0x97,
            FeSeq::StartOfString(..) => 0x98,
            FeSeq::Sgci => 0x99,
            FeSeq::Sci => 0x9a,
            FeSeq::Csi(..) => INTRO_BYTE,
            FeSeq::StringTerminator => ST_BYTE,
            FeSeq::OsCommand(..) => 0x9d,
            FeSeq::PrivacyMessage(..) => 0x9e,
            FeSeq::AppProgramCommand(..) => 0x9f,
        }
    }

    /// The exact bytes this sequence serializes to: the escape character,
    /// the kind byte, then the variant's body — nothing for the plain
    /// variants, the validated body bytes followed by a String Terminator
    /// for the framed string variants, and the complete CSI serialization
    /// for the CSI variant.
    pub open spec fn spec_serialize(self) -> Seq<u8> {
        seq![ESC_BYTE, self.spec_kind_byte()] + match self {
            FeSeq::DeviceControlString(chars) => spec_bytes_of(chars@) + spec_string_terminator(),
            FeSeq::StartOfString(chars) => spec_bytes_of(chars@) + spec_string_terminator(),
            FeSeq::Csi(seq) => seq.spec_serialize(),
            FeSeq::OsCommand(chars) => spec_bytes_of(chars@) + spec_string_terminator(),
            FeSeq::PrivacyMessage(chars) => spec_bytes_of(chars@) + spec_string_terminator(),
            FeSeq::AppProgramCommand(chars) => spec_bytes_of(chars@) + spec_string_terminator(),
            _ => Seq::empty(),
        }
    }

    /// Write this `Fe` escape sequence to a destination.
    pub fn write_to(&self, out: &mut Vec<u8>)
        ensures
            final(out)@ == old(out)@ + self.spec_serialize(),
            self matches FeSeq::Csi(c) ==> is_csi_sequence(c.spec_serialize()),
    {
        out.push(ESC_BYTE);
        let kind = self.kind_byte();
        out.push(kind);
        match self {
            FeSeq::DeviceControlString(chars) => {
                let mut body = slice_as_bytes(chars.as_slice());
                out.append(&mut body);
                out.push(ESC_BYTE);
                out.push(ST_BYTE);
            },
            FeSeq::StartOfString(chars) => {
                let mut body = slice_as_bytes(chars.as_slice());
                out.append(&mut body);
                out.push(ESC_BYTE);
                out.push(ST_BYTE);
            },
            FeSeq::Csi(seq) => {
                seq.write_to(out);
            },
            FeSeq::OsCommand(chars) => {
                let mut body = slice_as_bytes(chars.as_slice());
                out.append(&mut body);
                out.push(ESC_BYTE);
                out.push(ST_BYTE);
            },
            FeSeq::PrivacyMessage(chars) => {
                let mut body = slice_as_bytes(chars.as_slice());
                out.append(&mut body);
                out.push(ESC_BYTE);
                out.push(ST_BYTE);
            },
            FeSeq::AppProgramCommand(chars) => {
                let mut body = slice_as_bytes(chars.as_slice());
                out.append(&mut body);
                out.push(ESC_BYTE);
                out.push(ST_BYTE);
            },
            _ => {},
        }
        proof {
            assert(out@ =~= old(out)@ + self.spec_serialize());
        }
    }
}

} // verus!
