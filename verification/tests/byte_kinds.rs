use termesc::byte_range::{RangedByte, Utf8Byte, slice_as_bytes, slice_from_bytes};
use termesc::csi::{CsiFinal, CsiInter, CsiParam};
use termesc::fe_seq::{DcsChar, FormatEffector, Printable, SosChar};

fn check_new_matches_validity<K: RangedByte>() {
    for b in 0..=255u8 {
        assert_eq!(K::is_byte_valid(b), K::new(b).is_some());
        if let Some(v) = K::new(b) {
            assert_eq!(v.byte(), b);
        }
    }
}

#[test]
fn csi_param_new_matches_validity() {
    check_new_matches_validity::<CsiParam>();
    for b in 0..=255u8 {
        assert_eq!(CsiParam::is_byte_valid(b), (0x30..=0x3f).contains(&b));
    }
}

#[test]
fn csi_inter_new_matches_validity() {
    check_new_matches_validity::<CsiInter>();
    for b in 0..=255u8 {
        assert_eq!(CsiInter::is_byte_valid(b), (0x20..=0x2f).contains(&b));
    }
}

#[test]
fn csi_final_new_matches_validity() {
    check_new_matches_validity::<CsiFinal>();
    for b in 0..=255u8 {
        assert_eq!(CsiFinal::is_byte_valid(b), (0x40..=0x7e).contains(&b));
    }
}

#[test]
fn dcs_char_new_matches_validity() {
    check_new_matches_validity::<DcsChar>();
    for b in 0..=255u8 {
        assert_eq!(
            DcsChar::is_byte_valid(b),
            (0x08..=0x0d).contains(&b) || (0x20..=0x7e).contains(&b)
        );
    }
}

#[test]
fn sos_char_new_matches_validity() {
    check_new_matches_validity::<SosChar>();
    for b in 0..=255u8 {
        assert_eq!(SosChar::is_byte_valid(b), b != 0x97 && b != 0x9c);
    }
}

#[test]
fn format_effector_new_matches_validity() {
    check_new_matches_validity::<FormatEffector>();
    for b in 0..=255u8 {
        assert_eq!(FormatEffector::is_byte_valid(b), (0x08..=0x0d).contains(&b));
    }
}

#[test]
fn printable_new_matches_validity() {
    check_new_matches_validity::<Printable>();
    for b in 0..=255u8 {
        assert_eq!(Printable::is_byte_valid(b), (0x20..=0x7e).contains(&b));
    }
}

#[test]
fn slice_round_trip_csi_param() {
    let bytes = vec![0x30u8, 0x3b, 0x31, 0x3f, 0x39];
    let vals: Vec<CsiParam> = slice_from_bytes(&bytes).unwrap();
    assert_eq!(slice_as_bytes(&vals), bytes);
}

#[test]
fn slice_round_trip_printable() {
    let bytes: Vec<u8> = (0x20..=0x7eu8).collect();
    let vals: Vec<Printable> = slice_from_bytes(&bytes).unwrap();
    assert_eq!(slice_as_bytes(&vals), bytes);
}

#[test]
fn slice_round_trip_empty() {
    let bytes: Vec<u8> = vec![];
    let vals: Vec<CsiInter> = slice_from_bytes(&bytes).unwrap();
    assert_eq!(slice_as_bytes(&vals), bytes);
}

#[test]
fn slice_from_bytes_reports_first_invalid_index() {
    // One invalid byte in the middle: its zero-based position comes back.
    let r: Result<Vec<CsiParam>, usize> = slice_from_bytes(&[0x30, 0x31, 0x10, 0x32]);
    assert_eq!(r.unwrap_err(), 2);

    // Invalid byte first.
    let r: Result<Vec<CsiParam>, usize> = slice_from_bytes(&[0x00, 0x30]);
    assert_eq!(r.unwrap_err(), 0);

    // Invalid byte last.
    let r: Result<Vec<Printable>, usize> = slice_from_bytes(&[0x41, 0x42, 0x07]);
    assert_eq!(r.unwrap_err(), 2);
}

#[test]
fn slice_from_bytes_reports_earliest_of_two_invalid() {
    let r: Result<Vec<CsiFinal>, usize> = slice_from_bytes(&[0x41, 0x00, 0x42, 0xff]);
    assert_eq!(r.unwrap_err(), 1);
}

#[test]
fn new_unchecked_wraps_the_byte() {
    assert_eq!(CsiParam::new_unchecked(0x3b).byte(), 0x3b);
    assert_eq!(CsiFinal::new_unchecked(b'm').byte(), b'm');
    assert_eq!(Printable::new_unchecked(b' ').byte(), b' ');
}

#[test]
fn utf8_projection_as_char() {
    assert_eq!(CsiParam::new(b'7').unwrap().as_char(), '7');
    assert_eq!(CsiInter::new(b' ').unwrap().as_char(), ' ');
    assert_eq!(CsiFinal::new(b'm').unwrap().as_char(), 'm');
    assert_eq!(DcsChar::new(b'x').unwrap().as_char(), 'x');
    assert_eq!(DcsChar::new(0x09).unwrap().as_char(), '\t');
    assert_eq!(Printable::new(b'~').unwrap().as_char(), '~');
}

#[test]
fn dcs_char_conversions() {
    let p = Printable::new(b'q').unwrap();
    assert_eq!(DcsChar::from_printable(p).byte(), b'q');
    let f = FormatEffector::new(0x0a).unwrap();
    assert_eq!(DcsChar::from_format_effector(f).byte(), 0x0a);
}
