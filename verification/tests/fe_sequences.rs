use termesc::byte_range::{RangedByte, slice_from_bytes};
use termesc::csi::{Csi, CsiFinal, CsiParam};
use termesc::fe_seq::{DcsChar, FeSeq, Printable, SosChar};

fn fe_bytes(seq: &FeSeq) -> Vec<u8> {
    let mut out = Vec::new();
    seq.write_to(&mut out);
    out
}

#[test]
fn plain_variant_writes_escape_and_kind() {
    assert_eq!(fe_bytes(&FeSeq::NextLine), b"\x1b\x85");
    assert_eq!(fe_bytes(&FeSeq::ReverseIndex), b"\x1b\x8d");
    assert_eq!(fe_bytes(&FeSeq::Sci), b"\x1b\x9a");
}

#[test]
fn string_terminator_writes_two_bytes() {
    assert_eq!(fe_bytes(&FeSeq::StringTerminator), b"\x1b\x9c");
}

#[test]
fn device_control_string_is_framed() {
    let body: Vec<DcsChar> = slice_from_bytes(b"hello").unwrap();
    assert_eq!(fe_bytes(&FeSeq::DeviceControlString(body)), b"\x1b\x90hello\x1b\x9c");
}

#[test]
fn start_of_string_is_framed() {
    let body: Vec<SosChar> = slice_from_bytes(&[0x01, 0xfe]).unwrap();
    assert_eq!(fe_bytes(&FeSeq::StartOfString(body)), b"\x1b\x98\x01\xfe\x1b\x9c");
}

#[test]
fn os_command_is_framed() {
    let body: Vec<Printable> = slice_from_bytes(b"0;title").unwrap();
    assert_eq!(fe_bytes(&FeSeq::OsCommand(body)), b"\x1b\x9d0;title\x1b\x9c");
}

#[test]
fn privacy_message_and_app_command_are_framed() {
    let body: Vec<Printable> = slice_from_bytes(b"x").unwrap();
    assert_eq!(fe_bytes(&FeSeq::PrivacyMessage(body)), b"\x1b\x9ex\x1b\x9c");
    let body: Vec<Printable> = slice_from_bytes(b"y").unwrap();
    assert_eq!(fe_bytes(&FeSeq::AppProgramCommand(body)), b"\x1b\x9fy\x1b\x9c");
}

#[test]
fn framed_empty_body_is_just_frame() {
    assert_eq!(fe_bytes(&FeSeq::DeviceControlString(vec![])), b"\x1b\x90\x1b\x9c");
}

#[test]
fn csi_variant_delegates_to_csi_serialization() {
    let csi = Csi {
        parameter_bytes: vec![CsiParam::new(b'2').unwrap()],
        intermediate_bytes: vec![],
        final_byte: CsiFinal::new(b'J').unwrap(),
    };
    // The escape character and the kind byte `[` come first, then the
    // complete CSI serialization.
    assert_eq!(fe_bytes(&FeSeq::Csi(csi)), b"\x1b[\x1b[2J");
}

#[test]
fn invalid_body_byte_is_rejected_before_construction() {
    let r: Result<Vec<Printable>, usize> = slice_from_bytes(b"ok\x1bnope");
    assert_eq!(r.unwrap_err(), 2);
    let r: Result<Vec<DcsChar>, usize> = slice_from_bytes(&[0x20, 0x07]);
    assert_eq!(r.unwrap_err(), 1);
    let r: Result<Vec<SosChar>, usize> = slice_from_bytes(&[0x00, 0x9c]);
    assert_eq!(r.unwrap_err(), 1);
    assert!(!SosChar::is_byte_valid(0x97));
}
