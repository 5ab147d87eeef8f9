use termesc::byte_range::RangedByte;
use termesc::csi::{Csi, CsiFinal, CsiParam};
use termesc::fe_seq::FeSeq;
use termesc::helpers::{
    Color, EraseDisplay, EraseLine, Italic, Movement, StateChange, Strikethrough, Underline,
    Weight,
};
use termesc::sgr::{Sgr, SgrColor};

fn sgr_bytes(s: Sgr) -> Vec<u8> {
    let mut out = Vec::new();
    s.write_to(&mut out);
    out
}

fn sgr_param_bytes(s: Sgr) -> Vec<u8> {
    let mut out = Vec::new();
    s.write_params_to(&mut out);
    out
}

fn state_change_bytes(s: &StateChange) -> Vec<u8> {
    let mut out = Vec::new();
    s.write_to(&mut out);
    out
}

#[test]
fn sgr_reset_serializes_exactly() {
    assert_eq!(sgr_bytes(Sgr::Reset), b"\x1b[0m");
}

#[test]
fn erase_display_all_serializes_exactly() {
    let mut out = Vec::new();
    EraseDisplay::All.write_to(&mut out);
    assert_eq!(out, b"\x1b[2J");
}

#[test]
fn erase_display_modes() {
    let mut out = Vec::new();
    EraseDisplay::CurToEnd.write_to(&mut out);
    EraseDisplay::CurToBegin.write_to(&mut out);
    EraseDisplay::XtermAllNoScrollback.write_to(&mut out);
    assert_eq!(out, b"\x1b[0J\x1b[1J\x1b[3J");
}

#[test]
fn erase_line_modes() {
    let mut out = Vec::new();
    EraseLine::CurToEnd.write_to(&mut out);
    EraseLine::CurToBegin.write_to(&mut out);
    EraseLine::All.write_to(&mut out);
    assert_eq!(out, b"\x1b[0K\x1b[1K\x1b[2K");
}

#[test]
fn sgr_color_table_param_text() {
    let mut out = Vec::new();
    SgrColor::Table(200).write_params_to(&mut out);
    assert_eq!(out, b"5;200");
}

#[test]
fn sgr_color_rgb_param_text() {
    let mut out = Vec::new();
    SgrColor::Rgb(255, 0, 128).write_params_to(&mut out);
    assert_eq!(out, b"2;255;0;128");
}

#[test]
fn sgr_color_decimal_edges() {
    let cases: [(u8, &[u8]); 6] = [
        (0, b"5;0"),
        (9, b"5;9"),
        (10, b"5;10"),
        (99, b"5;99"),
        (100, b"5;100"),
        (255, b"5;255"),
    ];
    for (n, expected) in cases {
        let mut out = Vec::new();
        SgrColor::Table(n).write_params_to(&mut out);
        assert_eq!(out, expected);
    }
}

#[test]
fn sgr_codes_match_ecma_table() {
    assert_eq!(Sgr::Reset.code(), 0);
    assert_eq!(Sgr::WeightBoldOn.code(), 1);
    assert_eq!(Sgr::WeightThinOn.code(), 2);
    assert_eq!(Sgr::ItalicOn.code(), 3);
    assert_eq!(Sgr::UnderlineSingle.code(), 4);
    assert_eq!(Sgr::StrikethroughOn.code(), 9);
    assert_eq!(Sgr::FontPrimary.code(), 10);
    assert_eq!(Sgr::Font9.code(), 19);
    assert_eq!(Sgr::Fraktur.code(), 20);
    assert_eq!(Sgr::UnderlineDouble.code(), 21);
    assert_eq!(Sgr::WeightAllOff.code(), 22);
    assert_eq!(Sgr::StrikethroughOff.code(), 29);
    assert_eq!(Sgr::Foreground1.code(), 30);
    assert_eq!(Sgr::Foreground8.code(), 37);
    assert_eq!(Sgr::Foreground(SgrColor::Table(0)).code(), 38);
    assert_eq!(Sgr::ForegroundDefault.code(), 39);
    assert_eq!(Sgr::Background1.code(), 40);
    assert_eq!(Sgr::Background8.code(), 47);
    assert_eq!(Sgr::Background(SgrColor::Table(0)).code(), 48);
    assert_eq!(Sgr::BackgroundDefault.code(), 49);
    assert_eq!(Sgr::ProportionalSpacingOff.code(), 50);
    assert_eq!(Sgr::OverlinedOff.code(), 55);
    assert_eq!(Sgr::UnderlineColor(SgrColor::Table(0)).code(), 58);
    assert_eq!(Sgr::UnderlineColorDefault.code(), 59);
}

#[test]
fn sgr_extended_color_serializes_fully() {
    assert_eq!(sgr_bytes(Sgr::Foreground(SgrColor::Table(7))), b"\x1b[38;5;7m");
    assert_eq!(sgr_bytes(Sgr::Background(SgrColor::Rgb(1, 22, 133))), b"\x1b[48;2;1;22;133m");
    assert_eq!(sgr_param_bytes(Sgr::UnderlineColor(SgrColor::Table(42))), b"58;5;42");
}

#[test]
fn single_attribute_sequences() {
    let mut out = Vec::new();
    Weight::Bold.write_to(&mut out);
    assert_eq!(out, b"\x1b[1m");
    out.clear();
    Weight::Regular.write_to(&mut out);
    assert_eq!(out, b"\x1b[22m");
    out.clear();
    Underline::Double.write_to(&mut out);
    assert_eq!(out, b"\x1b[21m");
    out.clear();
    Italic::On.write_to(&mut out);
    assert_eq!(out, b"\x1b[3m");
    out.clear();
    Strikethrough::Off.write_to(&mut out);
    assert_eq!(out, b"\x1b[29m");
}

#[test]
fn into_sgr_mappings() {
    assert_eq!(Weight::Bold.into_sgr(), Sgr::WeightBoldOn);
    assert_eq!(Weight::Thin.into_sgr(), Sgr::WeightThinOn);
    assert_eq!(Weight::Regular.into_sgr(), Sgr::WeightAllOff);
    assert_eq!(Underline::Single.into_sgr(), Sgr::UnderlineSingle);
    assert_eq!(Underline::Off.into_sgr(), Sgr::UnderlineNone);
    assert_eq!(Italic::Off.into_sgr(), Sgr::ItalicOff);
    assert_eq!(Strikethrough::On.into_sgr(), Sgr::StrikethroughOn);
    assert_eq!(Color::Reset.into_foreground(), Sgr::ForegroundDefault);
    assert_eq!(Color::Table(4).into_foreground(), Sgr::Foreground(SgrColor::Table(4)));
    assert_eq!(Color::Rgb(1, 2, 3).into_background(), Sgr::Background(SgrColor::Rgb(1, 2, 3)));
    assert_eq!(Color::Reset.into_background(), Sgr::BackgroundDefault);
    assert_eq!(Color::from_sgr_color(SgrColor::Table(9)), Color::Table(9));
    assert_eq!(Color::from_sgr_color(SgrColor::Rgb(7, 8, 9)), Color::Rgb(7, 8, 9));
}

#[test]
fn state_change_empty_serializes_bare() {
    assert_eq!(state_change_bytes(&StateChange::new()), b"\x1b[m");
}

#[test]
fn state_change_weight_and_foreground() {
    let s = StateChange::new()
        .with_foreground(Color::Table(4))
        .with_weight(Weight::Bold);
    assert_eq!(state_change_bytes(&s), b"\x1b[22;1;38;5;4m");
}

#[test]
fn state_change_italic_and_background() {
    let s = StateChange::new()
        .with_italic(Italic::On)
        .with_background(Color::Rgb(1, 2, 3));
    assert_eq!(state_change_bytes(&s), b"\x1b[3;48;2;1;2;3m");
}

#[test]
fn state_change_weight_variants() {
    let bold = StateChange::new().with_weight(Weight::Bold);
    assert_eq!(state_change_bytes(&bold), b"\x1b[22;1m");
    let thin = StateChange::new().with_weight(Weight::Thin);
    assert_eq!(state_change_bytes(&thin), b"\x1b[22;2m");
    let regular = StateChange::new().with_weight(Weight::Regular);
    assert_eq!(state_change_bytes(&regular), b"\x1b[22m");
}

#[test]
fn state_change_all_fields() {
    let s = StateChange::new()
        .with_weight(Weight::Thin)
        .with_italic(Italic::On)
        .with_underline(Underline::Single)
        .with_strikethrough(Strikethrough::On)
        .with_foreground(Color::Reset)
        .with_background(Color::Table(11));
    assert_eq!(state_change_bytes(&s), b"\x1b[22;2;3;4;9;39;48;5;11m");
}

#[test]
fn resetter_neutralizes_only_set_fields() {
    let s = StateChange::new()
        .with_weight(Weight::Bold)
        .with_background(Color::Rgb(9, 9, 9));
    let r = s.resetter();
    assert_eq!(r.weight, Some(Weight::Regular));
    assert_eq!(r.italic, None);
    assert_eq!(r.underline, None);
    assert_eq!(r.strikethrough, None);
    assert_eq!(r.foreground, None);
    assert_eq!(r.background, Some(Color::Reset));
}

#[test]
fn resetter_of_fully_set_change() {
    let s = StateChange::new()
        .with_weight(Weight::Thin)
        .with_italic(Italic::On)
        .with_underline(Underline::Double)
        .with_strikethrough(Strikethrough::On)
        .with_foreground(Color::Table(1))
        .with_background(Color::Table(2));
    let r = s.resetter();
    assert_eq!(r.weight, Some(Weight::Regular));
    assert_eq!(r.italic, Some(Italic::Off));
    assert_eq!(r.underline, Some(Underline::Off));
    assert_eq!(r.strikethrough, Some(Strikethrough::Off));
    assert_eq!(r.foreground, Some(Color::Reset));
    assert_eq!(r.background, Some(Color::Reset));
    assert_eq!(state_change_bytes(&r), b"\x1b[22;23;24;29;39;49m");
}

#[test]
fn resetter_of_empty_change_is_empty() {
    let r = StateChange::new().resetter();
    assert_eq!(r, StateChange::new());
    assert_eq!(state_change_bytes(&r), b"\x1b[m");
}

#[test]
fn movement_relative_sequences() {
    let mut out = Vec::new();
    Movement::Relative { rows: Some(-3), columns: None }.write_to(&mut out);
    assert_eq!(out, b"\x1b[3A");
    out.clear();
    Movement::Relative { rows: Some(5), columns: Some(-2) }.write_to(&mut out);
    assert_eq!(out, b"\x1b[5B\x1b[2D");
    out.clear();
    Movement::Relative { rows: None, columns: Some(7) }.write_to(&mut out);
    assert_eq!(out, b"\x1b[7C");
    out.clear();
    Movement::Relative { rows: None, columns: None }.write_to(&mut out);
    assert_eq!(out, b"");
}

#[test]
fn movement_extreme_negative_delta() {
    let mut out = Vec::new();
    Movement::Relative { rows: Some(-128), columns: None }.write_to(&mut out);
    assert_eq!(out, b"\x1b[128A");
}

#[test]
fn movement_absolute_sequence() {
    let mut out = Vec::new();
    Movement::Absolute { row: 5, column: 10 }.write_to(&mut out);
    assert_eq!(out, b"\x1b[5;10H");
}

#[test]
fn csi_write_begin_is_prefix() {
    let mut out = Vec::new();
    Csi::write_begin(&mut out);
    assert_eq!(out, b"\x1b[");
}

#[test]
fn csi_full_sequence() {
    let csi = Csi {
        parameter_bytes: vec![
            CsiParam::new(b'1').unwrap(),
            CsiParam::new(b';').unwrap(),
            CsiParam::new(b'3').unwrap(),
            CsiParam::new(b'1').unwrap(),
        ],
        intermediate_bytes: vec![],
        final_byte: CsiFinal::new(b'm').unwrap(),
    };
    let mut out = Vec::new();
    csi.write_to(&mut out);
    assert_eq!(out, b"\x1b[1;31m");
}

#[test]
fn fe_seq_kind_bytes() {
    assert_eq!(FeSeq::Pad.kind_byte(), 0x80);
    assert_eq!(FeSeq::NextLine.kind_byte(), 0x85);
    assert_eq!(FeSeq::DeviceControlString(vec![]).kind_byte(), 0x90);
    assert_eq!(FeSeq::StartOfProtArea.kind_byte(), 0x96);
    assert_eq!(FeSeq::EndOfProtArea.kind_byte(), 0x97);
    assert_eq!(FeSeq::StartOfString(vec![]).kind_byte(), 0x98);
    assert_eq!(
        FeSeq::Csi(Csi {
            parameter_bytes: vec![],
            intermediate_bytes: vec![],
            final_byte: CsiFinal::new(b'm').unwrap(),
        })
        .kind_byte(),
        b'['
    );
    assert_eq!(FeSeq::StringTerminator.kind_byte(), 0x9c);
    assert_eq!(FeSeq::OsCommand(vec![]).kind_byte(), 0x9d);
    assert_eq!(FeSeq::PrivacyMessage(vec![]).kind_byte(), 0x9e);
    assert_eq!(FeSeq::AppProgramCommand(vec![]).kind_byte(), 0x9f);
}
