//! Bit-level helpers for MIDI bytes: 7- and 14-bit masking, assembling and
//! splitting 14-bit values, and packing a status nibble with a channel.

use vstd::prelude::*;

verus! {

/// Mask a data byte down to its 7 significant bits.
pub fn mask7(input: u8) -> (r: u8)
    ensures
        r == input & 0x7f,
        r < 128,
{
    proof {
        assert(input & 0x7f < 128) by (bit_vector);
    }
    input & 0b01111111
}

/// Mask a value down to the 14 bits a pitch-bend carries.
pub fn mask14(input: u16) -> (r: u16)
    ensures
        r == input & 0x3fff,
        r < 16384,
{
    proof {
        assert(input & 0x3fff < 16384) by (bit_vector);
    }
    input & 0b0011111111111111
}

/// Split a 14-bit value into its most and least significant 7-bit bytes.
pub fn u14_to_msb_lsb(input: u16) -> (r: (u8, u8))
    ensures
        r.0 == (input >> 7) & 0x7f,
        r.1 == input & 0x7f,
        r.0 < 128,
        r.1 < 128,
{
    proof {
        assert((input >> 7) & 0x7f < 128 && input & 0x7f < 128
            && ((input >> 7) & 0x7f) as u8 as u16 == (input >> 7) & 0x7f
            && (input & 0x7f) as u8 as u16 == input & 0x7f
            && ((input as u8) & 0x7f) as u16 == input & 0x7f
            && (((input >> 7) as u8) & 0x7f) as u16 == (input >> 7) & 0x7f) by (bit_vector);
    }
    let msb = mask7((input >> 7) as u8);
    let lsb = mask7(input as u8);
    (msb, lsb)
}

/// Assemble a 14-bit value from 7-bit most and least significant bytes.
pub fn msb_lsb_to_u14(msb: u8, lsb: u8) -> (r: u16)
    ensures
        r == ((msb & 0x7f) as int) * 128 + ((lsb & 0x7f) as int),
        r < 16384,
{
    proof {
        assert(msb & 0x7f < 128 && lsb & 0x7f < 128) by (bit_vector);
    }
    let m = mask7(msb);
    let l = mask7(lsb);
    proof {
        let mw = m as u16;
        assert(mw < 128 ==> (mw << 7) == mw * 128 && (mw << 7) < 16384) by (bit_vector);
    }
    ((m as u16) << 7) + l as u16
}

/// Pack a status nibble and a channel number into one status byte.
pub fn status_byte(status: u8, channel: u8) -> (r: u8)
    requires
        channel < 16,
    ensures
        r == ((status & 0x0f) as int) * 16 + channel,
{
    proof {
        assert(status & 0x0f < 16) by (bit_vector);
    }
    (status & 0b00001111) * 16 + channel
}

/// Separate a status byte into its status nibble and its channel number.
pub fn from_status_byte(sb: u8) -> (r: (u8, u8))
    ensures
        r.0 == sb >> 4,
        r.1 == sb & 0x0f,
        r.0 < 16,
        r.1 < 16,
{
    proof {
        assert((sb & 0xf0) >> 4 == sb >> 4 && sb >> 4 < 16 && sb & 0x0f < 16) by (bit_vector);
    }
    let status = (sb & 0b11110000) >> 4;
    let channel = sb & 0b00001111;
    (status, channel)
}

/// Splitting a 14-bit value and reassembling the two bytes gives the value
/// back; for a wider value the reassembly yields its low 14 bits.
pub proof fn lemma_u14_msb_lsb_round_trip(input: u16)
    ensures
        (((input >> 7) & 0x7f) as int) * 128 + ((input & 0x7f) as int) == input & 0x3fff,
        input < 16384 ==> (((input >> 7) & 0x7f) as int) * 128 + ((input & 0x7f) as int)
            == input,
{
    assert((((input >> 7) & 0x7f) as int) * 128 + ((input & 0x7f) as int) == input & 0x3fff)
        by (bit_vector);
    assert(input < 16384 ==> input & 0x3fff == input) by (bit_vector);
}

} // verus!
