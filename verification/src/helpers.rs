//! Composite attribute helpers: single-attribute encoders for weight, italic,
//! underline, strikethrough and color, erase and cursor-movement sequences,
//! and the [`StateChange`] aggregator that batches several attribute changes
//! into one minimal SGR sequence with correct separator placement.

use vstd::prelude::*;
use crate::byte_range::RangedByte;
use crate::csi::{Csi, CsiFinal, INTRO_BYTE, SGR_FINAL_BYTE, is_csi_sequence, lemma_csi_frame};
use crate::decimal::{dec_u8, lemma_dec_u8_digits, write_u8_dec};
use crate::fe_seq::ESC_BYTE;
use crate::sgr::{
    PARAM_SEP_BYTE, Sgr, SgrColor, all_param_bytes, lemma_param_run_concat,
    lemma_sgr_params_valid,
};

verus! {

/// Final byte of an erase-display sequence: `J`.
pub const ERASE_DISPLAY_FINAL_BYTE: u8 = 0x4a;

/// Final byte of an erase-line sequence: `K`.
pub const ERASE_LINE_FINAL_BYTE: u8 = 0x4b;

/// Final byte moving the cursor up: `A`.
pub const CURSOR_UP_FINAL_BYTE: u8 = 0x41;

/// Final byte moving the cursor down: `B`.
pub const CURSOR_DOWN_FINAL_BYTE: u8 = 0x42;

/// Final byte moving the cursor right: `C`.
pub const CURSOR_RIGHT_FINAL_BYTE: u8 = 0x43;

/// Final byte moving the cursor left: `D`.
pub const CURSOR_LEFT_FINAL_BYTE: u8 = 0x44;

/// Final byte of an absolute cursor-position sequence: `H`.
pub const CURSOR_POSITION_FINAL_BYTE: u8 = 0x48;

/// Mode of erasing characters on the display.
#[derive(Clone, Copy, Debug, PartialEq, Eq, Structural)]
pub enum EraseDisplay {
    CurToEnd,
    CurToBegin,
    All,
    XtermAllNoScrollback,
}

impl EraseDisplay {
    /// The numeric mode of this erase selection.
    pub open spec fn spec_code(self) -> u8 {
        match self {
            EraseDisplay::CurToEnd => 0,
            EraseDisplay::CurToBegin => 1,
            EraseDisplay::All => 2,
            EraseDisplay::XtermAllNoScrollback => 3,
        }
    }

    /// The exact bytes this erase selection serializes to:
    /// `ESC [ <mode> J`.
    pub open spec fn spec_serialize(self) -> Seq<u8> {
        seq![ESC_BYTE, INTRO_BYTE] + dec_u8(self.spec_code()) + seq![ERASE_DISPLAY_FINAL_BYTE]
    }

    /// Append this erase-display sequence to `out`. What is appended is one
    /// grammatically valid CSI sequence.
    pub fn write_to(&self, out: &mut Vec<u8>)
        ensures
            final(out)@ == old(out)@ + self.spec_serialize(),
            is_csi_sequence(self.spec_serialize()),
    {
        Csi::write_begin(out);
        let code: u8 = match self {
            EraseDisplay::CurToEnd => 0,
            EraseDisplay::CurToBegin => 1,
            EraseDisplay::All => 2,
            EraseDisplay::XtermAllNoScrollback => 3,
        };
        write_u8_dec(code, out);
        out.push(ERASE_DISPLAY_FINAL_BYTE);
        proof {
            assert(out@ =~= old(out)@ + self.spec_serialize());
            lemma_dec_u8_digits(self.spec_code());
            lemma_csi_frame(dec_u8(self.spec_code()), ERASE_DISPLAY_FINAL_BYTE);
        }
    }
}

/// Mode of erasing characters in a line.
#[derive(Clone, Copy, Debug, PartialEq, Eq, Structural)]
pub enum EraseLine {
    CurToEnd,
    CurToBegin,
    All,
}

impl EraseLine {
    /// The numeric mode of this erase selection.
    pub open spec fn spec_code(self) -> u8 {
        match self {
            EraseLine::CurToEnd => 0,
            EraseLine::CurToBegin => 1,
            EraseLine::All => 2,
        }
    }

    /// The exact bytes this erase selection serializes to:
    /// `ESC [ <mode> K`.
    pub open spec fn spec_serialize(self) -> Seq<u8> {
        seq![ESC_BYTE, INTRO_BYTE] + dec_u8(self.spec_code()) + seq![ERASE_LINE_FINAL_BYTE]
    }

    /// Append this erase-line sequence to `out`. What is appended is one
    /// grammatically valid CSI sequence.
    pub fn write_to(&self, out: &mut Vec<u8>)
        ensures
            final(out)@ == old(out)@ + self.spec_serialize(),
            is_csi_sequence(self.spec_serialize()),
    {
        Csi::write_begin(out);
        let code: u8 = match self {
            EraseLine::CurToEnd => 0,
            EraseLine::CurToBegin => 1,
            EraseLine::All => 2,
        };
        write_u8_dec(code, out);
        out.push(ERASE_LINE_FINAL_BYTE);
        proof {
            assert(out@ =~= old(out)@ + self.spec_serialize());
            lemma_dec_u8_digits(self.spec_code());
            lemma_csi_frame(dec_u8(self.spec_code()), ERASE_LINE_FINAL_BYTE);
        }
    }
}

/// Font weight change.
#[derive(Clone, Copy, Debug, PartialEq, Eq, Structural, Default)]
pub enum Weight {
    Bold,
    Thin,
    #[default]
    Regular,
}

impl Weight {
    /// The SGR parameter that sets this weight on its own.
    pub open spec fn spec_sgr(self) -> Sgr {
        match self {
            Weight::Bold => Sgr::WeightBoldOn,
            Weight::Thin => Sgr::WeightThinOn,
            Weight::Regular => Sgr::WeightAllOff,
        }
    }

    /// Convert `self` into an [`Sgr`].
    pub fn into_sgr(self) -> (r: Sgr)
        ensures
            r == self.spec_sgr(),
    {
        match self {
            Weight::Bold => Sgr::WeightBoldOn,
            Weight::Thin => Sgr::WeightThinOn,
            Weight::Regular => Sgr::WeightAllOff,
        }
    }

    /// Append the complete SGR sequence for this weight to `out`.
    pub fn write_to(&self, out: &mut Vec<u8>)
        ensures
            final(out)@ == old(out)@ + self.spec_sgr().spec_serialize(),
            is_csi_sequence(self.spec_sgr().spec_serialize()),
    {
        self.into_sgr().write_to(out);
    }
}

/// Underline effect state change.
#[derive(Clone, Copy, Debug, PartialEq, Eq, Structural, Default)]
pub enum Underline {
    Single,
    Double,
    #[default]
    Off,
}

impl Underline {
    /// The SGR parameter that sets this underline state on its own.
    pub open spec fn spec_sgr(self) -> Sgr {
        match self {
            Underline::Off => Sgr::UnderlineNone,
            Underline::Single => Sgr::UnderlineSingle,
            Underline::Double => Sgr::UnderlineDouble,
        }
    }

    /// Convert `self` into an [`Sgr`].
    pub fn into_sgr(self) -> (r: Sgr)
        ensures
            r == self.spec_sgr(),
    {
        match self {
            Underline::Off => Sgr::UnderlineNone,
            Underline::Single => Sgr::UnderlineSingle,
            Underline::Double => Sgr::UnderlineDouble,
        }
    }

    /// Append the complete SGR sequence for this underline state to `out`.
    pub fn write_to(&self, out: &mut Vec<u8>)
        ensures
            final(out)@ == old(out)@ + self.spec_sgr().spec_serialize(),
            is_csi_sequence(self.spec_sgr().spec_serialize()),
    {
        self.into_sgr().write_to(out);
    }
}

/// Italic effect state change.
#[derive(Clone, Copy, Debug, PartialEq, Eq, Structural, Default)]
pub enum Italic {
    #[default]
    Off,
    On,
}

impl Italic {
    /// The SGR parameter that sets this italic state on its own.
    pub open spec fn spec_sgr(self) -> Sgr {
        match self {
            Italic::On => Sgr::ItalicOn,
            Italic::Off => Sgr::ItalicOff,
        }
    }

    /// Convert `self` into an [`Sgr`].
    pub fn into_sgr(self) -> (r: Sgr)
        ensures
            r == self.spec_sgr(),
    {
        match self {
            Italic::On => Sgr::ItalicOn,
            Italic::Off => Sgr::ItalicOff,
        }
    }

    /// Append the complete SGR sequence for this italic state to `out`.
    pub fn write_to(&self, out: &mut Vec<u8>)
        ensures
            final(out)@ == old(out)@ + self.spec_sgr().spec_serialize(),
            is_csi_sequence(self.spec_sgr().spec_serialize()),
    {
        self.into_sgr().write_to(out);
    }
}

/// Strikethrough effect state change.
#[derive(Clone, Copy, Debug, PartialEq, Eq, Structural, Default)]
pub enum Strikethrough {
    #[default]
    Off,
    On,
}

impl Strikethrough {
    /// The SGR parameter that sets this strikethrough state on its own.
    pub open spec fn spec_sgr(self) -> Sgr {
        match self {
            Strikethrough::On => Sgr::StrikethroughOn,
            Strikethrough::Off => Sgr::StrikethroughOff,
        }
    }

    /// Convert `self` into an [`Sgr`].
    pub fn into_sgr(self) -> (r: Sgr)
        ensures
            r == self.spec_sgr(),
    {
        match self {
            Strikethrough::On => Sgr::StrikethroughOn,
            Strikethrough::Off => Sgr::StrikethroughOff,
        }
    }

    /// Append the complete SGR sequence for this strikethrough state to `out`.
    pub fn write_to(&self, out: &mut Vec<u8>)
        ensures
            final(out)@ == old(out)@ + self.spec_sgr().spec_serialize(),
            is_csi_sequence(self.spec_sgr().spec_serialize()),
    {
        self.into_sgr().write_to(out);
    }
}

/// Foreground or background color change.
#[derive(Clone, Copy, Debug, PartialEq, Eq, Structural, Default)]
pub enum Color {
    #[default]
    Reset,
    Table(u8),
    Rgb(u8, u8, u8),
}

impl Color {
    /// The SGR parameter that sets this color as the foreground.
    pub open spec fn spec_foreground(self) -> Sgr {
        match self {
            Color::Reset => Sgr::ForegroundDefault,
            Color::Table(n) => Sgr::Foreground(SgrColor::Table(n)),
            Color::Rgb(r, g, b) => Sgr::Foreground(SgrColor::Rgb(r, g, b)),
        }
    }

    /// The SGR parameter that sets this color as the background.
    pub open spec fn spec_background(self) -> Sgr {
        match self {
            Color::Reset => Sgr::BackgroundDefault,
            Color::Table(n) => Sgr::Background(SgrColor::Table(n)),
            Color::Rgb(r, g, b) => Sgr::Background(SgrColor::Rgb(r, g, b)),
        }
    }

    /// Return an [`Sgr`] to change the foreground color to the one specified
    /// by `self`.
    pub fn into_foreground(self) -> (r: Sgr)
        ensures
            r == self.spec_foreground(),
    {
        match self {
            Color::Reset => Sgr::ForegroundDefault,
            Color::Table(n) => Sgr::Foreground(SgrColor::Table(n)),
            Color::Rgb(r, g, b) => Sgr::Foreground(SgrColor::Rgb(r, g, b)),
        }
    }

    /// Return an [`Sgr`] to change the background color to the one specified
    /// by `self`.
    pub fn into_background(self) -> (r: Sgr)
        ensures
            r == self.spec_background(),
    {
        match self {
            Color::Reset => Sgr::BackgroundDefault,
            Color::Table(n) => Sgr::Background(SgrColor::Table(n)),
            Color::Rgb(r, g, b) => Sgr::Background(SgrColor::Rgb(r, g, b)),
        }
    }

    /// The color described by an extended-color SGR payload.
    pub fn from_sgr_color(value: SgrColor) -> (r: Self)
        ensures
            r == match value {
                SgrColor::Table(n) => Color::Table(n),
                SgrColor::Rgb(red, green, blue) => Color::Rgb(red, green, blue),
            },
    {
        match value {
            SgrColor::Table(n) => Color::Table(n),
            SgrColor::Rgb(r, g, b) => Color::Rgb(r, g, b),
        }
    }
}

/// The magnitude of a relative cursor offset.
pub open spec fn spec_mag(delta: i8) -> u8 {
    if delta < 0 {
        (-(delta as int)) as u8
    } else {
        delta as u8
    }
}

/// The exact bytes of one relative cursor-movement sequence:
/// `ESC [ <magnitude> <direction>`, where the direction is `neg` for a
/// negative offset and `pos` otherwise.
pub open spec fn spec_move_delta(neg: u8, pos: u8, delta: i8) -> Seq<u8> {
    seq![ESC_BYTE, INTRO_BYTE] + dec_u8(spec_mag(delta))
        + seq![if delta < 0 { neg } else { pos }]
}

/// Append one relative cursor-movement sequence to `out`.
fn move_cursor_delta(out: &mut Vec<u8>, neg: u8, pos: u8, delta: i8)
    requires
        CsiFinal::spec_valid(neg),
        CsiFinal::spec_valid(pos),
    ensures
        final(out)@ == old(out)@ + spec_move_delta(neg, pos, delta),
        is_csi_sequence(spec_move_delta(neg, pos, delta)),
{
    Csi::write_begin(out);
    let mag: u8 = if delta < 0 {
        (-(delta as i16)) as u8
    } else {
        delta as u8
    };
    assert(mag == spec_mag(delta));
    write_u8_dec(mag, out);
    out.push(if delta < 0 { neg } else { pos });
    proof {
        assert(out@ =~= old(out)@ + spec_move_delta(neg, pos, delta));
        lemma_dec_u8_digits(mag);
        lemma_csi_frame(dec_u8(mag), if delta < 0 { neg } else { pos });
    }
}

/// Every relative cursor-movement sequence that a set offset produces is a
/// grammatically valid CSI sequence.
proof fn lemma_move_delta_csi(neg: u8, pos: u8, delta: Option<i8>)
    requires
        CsiFinal::spec_valid(neg),
        CsiFinal::spec_valid(pos),
    ensures
        delta matches Some(d) ==> is_csi_sequence(spec_move_delta(neg, pos, d)),
{
    if let Some(d) = delta {
        lemma_dec_u8_digits(spec_mag(d));
        lemma_csi_frame(dec_u8(spec_mag(d)), if d < 0 { neg } else { pos });
    }
}

/// Relative or absolute movement of the cursor.
///
/// Relative offsets are signed 8-bit row and column deltas; absolute
/// positions are 1-based row and column numbers.
#[derive(Clone, Copy, Debug, PartialEq, Eq, Structural)]
pub enum Movement {
    Relative { rows: Option<i8>, columns: Option<i8> },
    Absolute { row: u8, column: u8 },
}

impl Movement {
    /// An absolute position is 1-based: row and column are nonzero.
    pub open spec fn wf(self) -> bool {
        match self {
            Movement::Relative { rows, columns } => true,
            Movement::Absolute { row, column } => row >= 1 && column >= 1,
        }
    }

    /// The exact bytes this movement serializes to: up to two relative
    /// sequences (rows first, then columns), or one absolute-position
    /// sequence.
    pub open spec fn spec_serialize(self) -> Seq<u8> {
        match self {
            Movement::Relative { rows, columns } => {
                (match rows {
                    Some(d) => spec_move_delta(CURSOR_UP_FINAL_BYTE, CURSOR_DOWN_FINAL_BYTE, d),
                    None => Seq::empty(),
                }) + (match columns {
                    Some(d) => spec_move_delta(
                        CURSOR_LEFT_FINAL_BYTE,
                        CURSOR_RIGHT_FINAL_BYTE,
                        d,
                    ),
                    None => Seq::empty(),
                })
            },
            Movement::Absolute { row, column } => seq![ESC_BYTE, INTRO_BYTE] + dec_u8(row)
                + seq![PARAM_SEP_BYTE] + dec_u8(column) + seq![CURSOR_POSITION_FINAL_BYTE],
        }
    }

    /// Append this movement's sequences to `out`: each sequence emitted is a
    /// grammatically valid CSI sequence.
    pub fn write_to(&self, out: &mut Vec<u8>)
        requires
            self.wf(),
        ensures
            final(out)@ == old(out)@ + self.spec_serialize(),
            *self matches Movement::Relative { rows, columns } ==> {
                &&& rows matches Some(d) ==> is_csi_sequence(
                    spec_move_delta(CURSOR_UP_FINAL_BYTE, CURSOR_DOWN_FINAL_BYTE, d),
                )
                &&& columns matches Some(d) ==> is_csi_sequence(
                    spec_move_delta(CURSOR_LEFT_FINAL_BYTE, CURSOR_RIGHT_FINAL_BYTE, d),
                )
            },
            *self is Absolute ==> is_csi_sequence(self.spec_serialize()),
    {
        match self {
            Movement::Relative { rows, columns } => {
                if let Some(x) = rows {
                    move_cursor_delta(out, CURSOR_UP_FINAL_BYTE, CURSOR_DOWN_FINAL_BYTE, *x);
                }
                if let Some(x) = columns {
                    move_cursor_delta(out, CURSOR_LEFT_FINAL_BYTE, CURSOR_RIGHT_FINAL_BYTE, *x);
                }
                proof {
                    assert(out@ =~= old(out)@ + self.spec_serialize());
                    lemma_move_delta_csi(CURSOR_UP_FINAL_BYTE, CURSOR_DOWN_FINAL_BYTE, *rows);
                    lemma_move_delta_csi(CURSOR_LEFT_FINAL_BYTE, CURSOR_RIGHT_FINAL_BYTE, *columns);
                }
            },
            Movement::Absolute { row, column } => {
                Csi::write_begin(out);
                write_u8_dec(*row, out);
                out.push(PARAM_SEP_BYTE);
                write_u8_dec(*column, out);
                out.push(CURSOR_POSITION_FINAL_BYTE);
                proof {
                    assert(out@ =~= old(out)@ + self.spec_serialize());
                    let params = dec_u8(*row) + seq![PARAM_SEP_BYTE] + dec_u8(*column);
                    lemma_dec_u8_digits(*row);
                    lemma_dec_u8_digits(*column);
                    lemma_param_run_concat(dec_u8(*row), seq![PARAM_SEP_BYTE]);
                    lemma_param_run_concat(dec_u8(*row) + seq![PARAM_SEP_BYTE], dec_u8(*column));
                    lemma_csi_frame(params, CURSOR_POSITION_FINAL_BYTE);
                    assert(self.spec_serialize() =~= seq![ESC_BYTE, INTRO_BYTE] + params
                        + seq![CURSOR_POSITION_FINAL_BYTE]);
                }
            },
        }
    }
}

/// Replace the payload of an option that is set; leave an unset option unset.
fn opt_replace_some<T: Copy>(option: Option<T>, value: T) -> (r: Option<T>)
    ensures
        r == if option is Some { Some(value) } else { None::<T> },
{
    match option {
        Some(..) => Some(value),
        None => None,
    }
}

/// The parameter text that a weight change contributes to a batched SGR
/// sequence: all weight bits are cleared first, then the requested weight
/// (if any) is set, since bold and thin are independent toggle bits.
pub open spec fn spec_weight_params(w: Weight) -> Seq<u8> {
    match w {
        Weight::Bold => Sgr::WeightAllOff.spec_params() + seq![PARAM_SEP_BYTE]
            + Sgr::WeightBoldOn.spec_params(),
        Weight::Thin => Sgr::WeightAllOff.spec_params() + seq![PARAM_SEP_BYTE]
            + Sgr::WeightThinOn.spec_params(),
        Weight::Regular => Sgr::WeightAllOff.spec_params(),
    }
}

/// The parameter texts joined by one separator between each adjacent pair,
/// with no leading or trailing separator.
pub open spec fn join_params(ps: Seq<Seq<u8>>) -> Seq<u8>
    decreases ps.len(),
{
    if ps.len() == 0 {
        Seq::empty()
    } else if ps.len() == 1 {
        ps[0]
    } else {
        join_params(ps.drop_last()) + seq![PARAM_SEP_BYTE] + ps.last()
    }
}

/// Joining one more parameter text appends a separator first exactly when
/// some parameter text was already present.
pub proof fn lemma_join_params_push(ps: Seq<Seq<u8>>, p: Seq<u8>)
    ensures
        join_params(ps.push(p)) == if ps.len() == 0 {
            p
        } else {
            join_params(ps) + seq![PARAM_SEP_BYTE] + p
        },
{
    assert(ps.push(p).drop_last() =~= ps);
    assert(ps.push(p).last() == p);
    if ps.len() == 0 {
        assert(join_params(ps.push(p)) == ps.push(p)[0]);
    }
}

/// A join of parameter-byte runs is itself a run of parameter bytes.
pub proof fn lemma_join_params_valid(ps: Seq<Seq<u8>>)
    requires
        forall|i: int| 0 <= i < ps.len() ==> all_param_bytes(#[trigger] ps[i]),
    ensures
        all_param_bytes(join_params(ps)),
    decreases ps.len(),
{
    if ps.len() <= 1 {
    } else {
        lemma_join_params_valid(ps.drop_last());
        assert(all_param_bytes(seq![PARAM_SEP_BYTE]));
        lemma_param_run_concat(join_params(ps.drop_last()), seq![PARAM_SEP_BYTE]);
        lemma_param_run_concat(
            join_params(ps.drop_last()) + seq![PARAM_SEP_BYTE],
            ps.last(),
        );
    }
}

/// The parameter text a weight change contributes is a run of parameter
/// bytes.
pub proof fn lemma_weight_params_valid(w: Weight)
    ensures
        all_param_bytes(spec_weight_params(w)),
{
    lemma_sgr_params_valid(Sgr::WeightAllOff);
    lemma_sgr_params_valid(Sgr::WeightBoldOn);
    lemma_sgr_params_valid(Sgr::WeightThinOn);
    assert(all_param_bytes(seq![PARAM_SEP_BYTE]));
    match w {
        Weight::Bold => {
            lemma_param_run_concat(Sgr::WeightAllOff.spec_params(), seq![PARAM_SEP_BYTE]);
            lemma_param_run_concat(
                Sgr::WeightAllOff.spec_params() + seq![PARAM_SEP_BYTE],
                Sgr::WeightBoldOn.spec_params(),
            );
        },
        Weight::Thin => {
            lemma_param_run_concat(Sgr::WeightAllOff.spec_params(), seq![PARAM_SEP_BYTE]);
            lemma_param_run_concat(
                Sgr::WeightAllOff.spec_params() + seq![PARAM_SEP_BYTE],
                Sgr::WeightThinOn.spec_params(),
            );
        },
        Weight::Regular => {
        },
    }
}

/// `p` behind a leading separator when one is owed.
pub open spec fn spec_sep_params(sep_first: bool, p: Seq<u8>) -> Seq<u8> {
    if sep_first {
        seq![PARAM_SEP_BYTE] + p
    } else {
        p
    }
}

/// Append one SGR parameter text, preceded by a separator when parameters
/// were already written.
fn write_field_params(sgr: Sgr, sep_first: bool, out: &mut Vec<u8>)
    ensures
        final(out)@ == old(out)@ + spec_sep_params(sep_first, sgr.spec_params()),
{
    if sep_first {
        out.push(PARAM_SEP_BYTE);
    }
    sgr.write_params_to(out);
    proof {
        assert(out@ =~= old(out)@ + spec_sep_params(sep_first, sgr.spec_params()));
    }
}

/// Append the parameter text of one weight change: clear all weight bits,
/// then set the requested weight if it is not the regular one.
fn write_weight_field_params(w: Weight, out: &mut Vec<u8>)
    ensures
        final(out)@ == old(out)@ + spec_weight_params(w),
{
    match w {
        Weight::Bold => {
            Sgr::WeightAllOff.write_params_to(out);
            out.push(PARAM_SEP_BYTE);
            Sgr::WeightBoldOn.write_params_to(out);
        },
        Weight::Thin => {
            Sgr::WeightAllOff.write_params_to(out);
            out.push(PARAM_SEP_BYTE);
            Sgr::WeightThinOn.write_params_to(out);
        },
        Weight::Regular => {
            Sgr::WeightAllOff.write_params_to(out);
        },
    }
    proof {
        assert(out@ =~= old(out)@ + spec_weight_params(w));
    }
}

/// Graphics setting state change.
///
/// This structure combines multiple optional state changes into one escape
/// sequence. Fields left unset are not emitted at all.
#[derive(Clone, Copy, Debug, PartialEq, Eq, Default)]
pub struct StateChange {
    pub weight: Option<Weight>,
    pub italic: Option<Italic>,
    pub underline: Option<Underline>,
    pub strikethrough: Option<Strikethrough>,
    pub foreground: Option<Color>,
    pub background: Option<Color>,
}

/// One step of the batched encoding: appending one more parameter text,
/// behind a separator exactly when parameters were already present, extends a
/// correctly joined prefix to a correctly joined prefix.
proof fn lemma_join_step(
    base: Seq<u8>,
    cur: Seq<u8>,
    fields: Seq<Seq<u8>>,
    p: Seq<u8>,
    written: bool,
)
    requires
        cur == base + join_params(fields),
        written == (fields.len() > 0),
    ensures
        cur + spec_sep_params(written, p) == base + join_params(fields.push(p)),
{
    lemma_join_params_push(fields, p);
    if written {
        vstd::seq_lib::lemma_concat_associative(join_params(fields), seq![PARAM_SEP_BYTE], p);
        vstd::seq_lib::lemma_concat_associative(
            base,
            join_params(fields),
            seq![PARAM_SEP_BYTE] + p,
        );
    } else {
        assert(base + join_params(fields) =~= base);
    }
}

/// Closing the batched sequence with the SGR final byte yields exactly the
/// serialized form, and that form is a grammatically valid CSI sequence.
proof fn lemma_join_finish(start: Seq<u8>, cur: Seq<u8>, s: StateChange)
    requires
        cur == (start + seq![ESC_BYTE, INTRO_BYTE]) + join_params(s.spec_field_params()),
    ensures
        cur.push(SGR_FINAL_BYTE) == start + s.spec_serialize(),
        is_csi_sequence(s.spec_serialize()),
{
    let prefix = seq![ESC_BYTE, INTRO_BYTE];
    let j = join_params(s.spec_field_params());
    assert(cur.push(SGR_FINAL_BYTE) =~= cur + seq![SGR_FINAL_BYTE]);
    vstd::seq_lib::lemma_concat_associative(start, prefix, j);
    vstd::seq_lib::lemma_concat_associative(start, prefix + j, seq![SGR_FINAL_BYTE]);
    lemma_state_change_params_valid(s);
    lemma_csi_frame(j, SGR_FINAL_BYTE);
}

impl StateChange {
    /// The parameter texts of the fields that are set, in the fixed field
    /// order: weight, italic, underline, strikethrough, foreground,
    /// background.
    pub open spec fn spec_field_params(self) -> Seq<Seq<u8>> {
        let l = Seq::<Seq<u8>>::empty();
        let l = if self.weight is Some {
            l.push(spec_weight_params(self.weight->0))
        } else {
            l
        };
        let l = if self.italic is Some {
            l.push(self.italic->0.spec_sgr().spec_params())
        } else {
            l
        };
        let l = if self.underline is Some {
            l.push(self.underline->0.spec_sgr().spec_params())
        } else {
            l
        };
        let l = if self.strikethrough is Some {
            l.push(self.strikethrough->0.spec_sgr().spec_params())
        } else {
            l
        };
        let l = if self.foreground is Some {
            l.push(self.foreground->0.spec_foreground().spec_params())
        } else {
            l
        };
        let l = if self.background is Some {
            l.push(self.background->0.spec_background().spec_params())
        } else {
            l
        };
        l
    }

    /// The exact bytes this state change serializes to: the CSI prefix, the
    /// parameter texts of the set fields joined by separators, and the SGR
    /// final byte. No field left unset contributes anything.
    pub open spec fn spec_serialize(self) -> Seq<u8> {
        seq![ESC_BYTE, INTRO_BYTE] + join_params(self.spec_field_params()) + seq![SGR_FINAL_BYTE]
    }

    /// Create a [`StateChange`] that doesn't change any formatting.
    pub fn new() -> (r: Self)
        ensures
            r.weight is None,
            r.italic is None,
            r.underline is None,
            r.strikethrough is None,
            r.foreground is None,
            r.background is None,
    {
        StateChange {
            weight: None,
            italic: None,
            underline: None,
            strikethrough: None,
            foreground: None,
            background: None,
        }
    }

    /// Create a [`StateChange`] that resets the effects of this one: every
    /// field that is set becomes that attribute's neutral value, and every
    /// field that is unset stays unset.
    pub fn resetter(&self) -> (r: Self)
        ensures
            r.weight == if self.weight is Some { Some(Weight::Regular) } else { None::<Weight> },
            r.italic == if self.italic is Some { Some(Italic::Off) } else { None::<Italic> },
            r.underline == if self.underline is Some {
                Some(Underline::Off)
            } else {
                None::<Underline>
            },
            r.strikethrough == if self.strikethrough is Some {
                Some(Strikethrough::Off)
            } else {
                None::<Strikethrough>
            },
            r.foreground == if self.foreground is Some { Some(Color::Reset) } else { None::<Color> },
            r.background == if self.background is Some { Some(Color::Reset) } else { None::<Color> },
    {
        StateChange {
            weight: opt_replace_some(self.weight, Weight::Regular),
            italic: opt_replace_some(self.italic, Italic::Off),
            underline: opt_replace_some(self.underline, Underline::Off),
            strikethrough: opt_replace_some(self.strikethrough, Strikethrough::Off),
            foreground: opt_replace_some(self.foreground, Color::Reset),
            background: opt_replace_some(self.background, Color::Reset),
        }
    }

    /// Set [`Self::weight`].
    pub fn with_weight(self, x: Weight) -> (r: Self)
        ensures
            r == (StateChange { weight: Some(x), ..self }),
    {
        StateChange { weight: Some(x), ..self }
    }

    /// Set [`Self::italic`].
    pub fn with_italic(self, x: Italic) -> (r: Self)
        ensures
            r == (StateChange { italic: Some(x), ..self }),
    {
        StateChange { italic: Some(x), ..self }
    }

    /// Set [`Self::underline`].
    pub fn with_underline(self, x: Underline) -> (r: Self)
        ensures
            r == (StateChange { underline: Some(x), ..self }),
    {
        StateChange { underline: Some(x), ..self }
    }

    /// Set [`Self::strikethrough`].
    pub fn with_strikethrough(self, x: Strikethrough) -> (r: Self)
        ensures
            r == (StateChange { strikethrough: Some(x), ..self }),
    {
        StateChange { strikethrough: Some(x), ..self }
    }

    /// Set [`Self::foreground`].
    pub fn with_foreground(self, x: Color) -> (r: Self)
        ensures
            r == (StateChange { foreground: Some(x), ..self }),
    {
        StateChange { foreground: Some(x), ..self }
    }

    /// Set [`Self::background`].
    pub fn with_background(self, x: Color) -> (r: Self)
        ensures
            r == (StateChange { background: Some(x), ..self }),
    {
        StateChange { background: Some(x), ..self }
    }

    /// Append the one SGR sequence that applies every set field to `out`:
    /// the CSI prefix once, the set fields' parameters separated by `;` with
    /// no leading or trailing separator, then the final byte. What is
    /// appended is one grammatically valid CSI sequence.
    pub fn write_to(&self, out: &mut Vec<u8>)
        ensures
            final(out)@ == old(out)@ + self.spec_serialize(),
            is_csi_sequence(self.spec_serialize()),
    {
        Csi::write_begin(out);
        let ghost base = out@;
        let ghost mut fields: Seq<Seq<u8>> = Seq::empty();
        let mut written = false;
        proof {
            assert(base + join_params(fields) =~= base);
        }

        if let Some(weight) = self.weight {
            let ghost p = spec_weight_params(weight);
            let ghost pre = out@;
            write_weight_field_params(weight, out);
            proof {
                lemma_join_step(base, pre, fields, p, written);
                fields = fields.push(p);
            }
            written = true;
        }

        if let Some(state) = self.italic {
            let ghost p = state.spec_sgr().spec_params();
            let ghost pre = out@;
            write_field_params(state.into_sgr(), written, out);
            proof {
                lemma_join_step(base, pre, fields, p, written);
                fields = fields.push(p);
            }
            written = true;
        }

        if let Some(underline) = self.underline {
            let ghost p = underline.spec_sgr().spec_params();
            let ghost pre = out@;
            write_field_params(underline.into_sgr(), written, out);
            proof {
                lemma_join_step(base, pre, fields, p, written);
                fields = fields.push(p);
            }
            written = true;
        }

        if let Some(state) = self.strikethrough {
            let ghost p = state.spec_sgr().spec_params();
            let ghost pre = out@;
            write_field_params(state.into_sgr(), written, out);
            proof {
                lemma_join_step(base, pre, fields, p, written);
                fields = fields.push(p);
            }
            written = true;
        }

        if let Some(color) = self.foreground {
            let ghost p = color.spec_foreground().spec_params();
            let ghost pre = out@;
            write_field_params(color.into_foreground(), written, out);
            proof {
                lemma_join_step(base, pre, fields, p, written);
                fields = fields.push(p);
            }
            written = true;
        }

        if let Some(color) = self.background {
            let ghost p = color.spec_background().spec_params();
            let ghost pre = out@;
            write_field_params(color.into_background(), written, out);
            proof {
                lemma_join_step(base, pre, fields, p, written);
                fields = fields.push(p);
            }
            written = true;
        }

        out.push(SGR_FINAL_BYTE);
        proof {
            assert(fields == self.spec_field_params());
            lemma_join_finish(old(out)@, base + join_params(fields), *self);
        }
    }
}

/// Every byte between a batched state change's prefix and final byte is a
/// legal CSI parameter byte.
pub proof fn lemma_state_change_params_valid(s: StateChange)
    ensures
        all_param_bytes(join_params(s.spec_field_params())),
{
    if s.weight is Some {
        lemma_weight_params_valid(s.weight->0);
    }
    if s.italic is Some {
        lemma_sgr_params_valid(s.italic->0.spec_sgr());
    }
    if s.underline is Some {
        lemma_sgr_params_valid(s.underline->0.spec_sgr());
    }
    if s.strikethrough is Some {
        lemma_sgr_params_valid(s.strikethrough->0.spec_sgr());
    }
    if s.foreground is Some {
        lemma_sgr_params_valid(s.foreground->0.spec_foreground());
    }
    if s.background is Some {
        lemma_sgr_params_valid(s.background->0.spec_background());
    }
    lemma_join_params_valid(s.spec_field_params());
}

} // verus!

