use libdvb::ca::asn1::{decode, encode};

fn encoded(value: u16) -> Vec<u8> {
    let mut out = Vec::new();
    encode(value, &mut out);
    out
}

#[test]
fn encode_short_form() {
    assert_eq!(encoded(0x7F), vec![0x7F]);
    assert_eq!(encoded(0), vec![0x00]);
}

#[test]
fn encode_one_byte_long_form() {
    assert_eq!(encoded(0x80), vec![0x81, 0x80]);
    assert_eq!(encoded(0xFF), vec![0x81, 0xFF]);
}

#[test]
fn encode_two_byte_long_form() {
    assert_eq!(encoded(0x1234), vec![0x82, 0x12, 0x34]);
    assert_eq!(encoded(0x100), vec![0x82, 0x01, 0x00]);
    assert_eq!(encoded(0xFFFF), vec![0x82, 0xFF, 0xFF]);
}

#[test]
fn encode_appends() {
    let mut out = vec![9, 9];
    encode(0x80, &mut out);
    assert_eq!(out, vec![9, 9, 0x81, 0x80]);
}

#[test]
fn decode_reads_back_every_value() {
    for v in 0..=u16::MAX {
        let mut bytes = encoded(v);
        let n = bytes.len();
        bytes.push(0xAA);
        assert_eq!(decode(&bytes), Some((v, n)));
    }
}

#[test]
fn decode_rejects_incomplete_fields() {
    assert_eq!(decode(&[]), None);
    assert_eq!(decode(&[0x81]), None);
    assert_eq!(decode(&[0x82, 0x12]), None);
    assert_eq!(decode(&[0x83, 0, 0, 0]), None);
}
