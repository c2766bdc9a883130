//! Length fields of the transport and session layers (ASN.1 BER lengths in
//! their shortest form).

use vstd::prelude::*;

verus! {

/// Marks a long form: its low bits count the length bytes that follow.
pub const SIZE_INDICATOR: u8 = 0x80;

/// The shortest length field that holds `value`: one byte below 0x80, else
/// the long form with one or two big-endian bytes.
pub open spec fn length_field(value: u16) -> Seq<u8> {
    if value < 0x80 {
        seq![value as u8]
    } else if value < 0x100 {
        seq![0x81u8, value as u8]
    } else {
        seq![0x82u8, (value / 0x100) as u8, (value % 0x100) as u8]
    }
}

/// What a length field at the start of `data` holds: its value and the
/// number of bytes it takes, or `None` where no complete field starts there.
pub open spec fn parse_length(data: Seq<u8>) -> Option<(u16, usize)> {
    if data.len() == 0 {
        None
    } else if data[0] < 0x80 {
        Some((data[0] as u16, 1usize))
    } else if data[0] == 0x81 && data.len() >= 2 {
        Some((data[1] as u16, 2usize))
    } else if data[0] == 0x82 && data.len() >= 3 {
        Some(((data[1] as int * 0x100 + data[2] as int) as u16, 3usize))
    } else {
        None
    }
}

/// Appends the shortest length field of `value` to `out`.
pub fn encode(value: u16, out: &mut Vec<u8>)
    ensures
        final(out)@ == old(out)@ + length_field(value),
{
    if value < SIZE_INDICATOR as u16 {
        out.push(value as u8);
    } else if value < 0x100 {
        out.push(SIZE_INDICATOR + 1);
        out.push(value as u8);
    } else {
        let hi: u16 = value >> 8;
        let lo: u16 = value & 0xFF;
        assert(hi == value / 0x100 && lo == value % 0x100) by (bit_vector)
            requires
                hi == value >> 8,
                lo == value & 0xFF,
        ;
        out.push(SIZE_INDICATOR + 2);
        out.push(hi as u8);
        out.push(lo as u8);
    }
    assert(final(out)@ =~= old(out)@ + length_field(value));
}

/// Reads the length field at the start of `data`: its value and how many
/// bytes it takes.
pub fn decode(data: &[u8]) -> (r: Option<(u16, usize)>)
    ensures
        r == parse_length(data@),
{
    if data.len() == 0 {
        None
    } else if data[0] < SIZE_INDICATOR {
        Some((data[0] as u16, 1))
    } else if data[0] == SIZE_INDICATOR + 1 && data.len() >= 2 {
        Some((data[1] as u16, 2))
    } else if data[0] == SIZE_INDICATOR + 2 && data.len() >= 3 {
        Some(((data[1] as u16) * 0x100 + data[2] as u16, 3))
    } else {
        None
    }
}

/// Reading back an encoded length gives the value and the field's size,
/// whatever follows the field.
pub proof fn lemma_length_round_trip(value: u16, rest: Seq<u8>)
    ensures
        parse_length(length_field(value) + rest) == Some((value, length_field(value).len() as usize)),
{
    let data = length_field(value) + rest;
    if value < 0x80 {
        assert(data[0] == value as u8);
    } else if value < 0x100 {
        assert(data[0] == 0x81u8 && data[1] == value as u8);
    } else {
        assert(data[0] == 0x82u8);
        assert(data[1] == (value / 0x100) as u8);
        assert(data[2] == (value % 0x100) as u8);
        assert((value / 0x100) as int * 0x100 + (value % 0x100) as int == value);
    }
}

} // verus!
