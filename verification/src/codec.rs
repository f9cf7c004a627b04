//! Framing of commands into fixed-size HID reports: the routing byte, the
//! little-endian address encoding, the 65-byte padded report layout, and the
//! fixed unpadded boot control frame.

use vstd::prelude::*;

use crate::commands::{target_value, AP2FlashError, AP2Target};

verus! {

/// The four little-endian bytes of a 32-bit address.
pub open spec fn le_bytes_of(addr: u32) -> Seq<u8> {
    seq![
        (addr & 0xff) as u8,
        ((addr >> 8) & 0xff) as u8,
        ((addr >> 16) & 0xff) as u8,
        ((addr >> 24) & 0xff) as u8,
    ]
}

/// The value a four-byte little-endian encoding stands for.
pub open spec fn le_decode(b: Seq<u8>) -> int
    recommends
        b.len() == 4,
{
    b[0] + b[1] * 0x100 + b[2] * 0x1_0000 + b[3] * 0x100_0000
}

/// Little-endian four-byte encoding round-trips: decoding the encoding of an
/// address gives the address back.
pub proof fn lemma_le_round_trip(addr: u32)
    ensures
        le_decode(le_bytes_of(addr)) == addr,
{
    assert(((addr & 0xff) as u8) + (((addr >> 8) & 0xff) as u8) * 0x100
        + (((addr >> 16) & 0xff) as u8) * 0x1_0000 + (((addr >> 24) & 0xff) as u8) * 0x100_0000
        == addr) by (bit_vector);
}

pub fn encode_addr(addr: u32) -> (r: [u8; 4])
    ensures
        r@ == le_bytes_of(addr),
{
    let r = [
        (addr & 0xff) as u8,
        ((addr >> 8) & 0xff) as u8,
        ((addr >> 16) & 0xff) as u8,
        ((addr >> 24) & 0xff) as u8,
    ];
    proof {
        assert(r@ =~= le_bytes_of(addr));
    }
    r
}

pub fn decode_addr(b: &[u8; 4]) -> (r: u32)
    ensures
        r == le_decode(b@),
        b@ == le_bytes_of(r),
{
    let r = (b[0] as u32) + (b[1] as u32) * 0x100 + (b[2] as u32) * 0x1_0000 + (b[3] as u32)
        * 0x100_0000;
    proof {
        let b0 = b@[0];
        let b1 = b@[1];
        let b2 = b@[2];
        let b3 = b@[3];
        let v = (b0 + b1 * 0x100 + b2 * 0x1_0000 + b3 * 0x100_0000) as u32;
        assert((v & 0xff) as u8 == b0 && ((v >> 8) & 0xff) as u8 == b1 && ((v >> 16) & 0xff) as u8
            == b2 && ((v >> 24) & 0xff) as u8 == b3) by (bit_vector)
            requires
                v == (b0 + b1 * 0x100 + b2 * 0x1_0000 + b3 * 0x100_0000) as u32,
        ;
        assert(b@ =~= le_bytes_of(r));
    }
    r
}

/// The single byte that names both the recipient (high nibble) and the
/// sender, always the USB host, in the low nibble.
pub open spec fn routing_value(target: AP2Target) -> u8 {
    ((target_value(target) & 0xf) << 4) | target_value(AP2Target::UsbHost)
}

/// The low nibble of every routing byte encodes the USB host as the sender.
pub proof fn lemma_routing_low_nibble(target: AP2Target)
    ensures
        routing_value(target) & 0x0f == target_value(AP2Target::UsbHost),
        routing_value(target) >> 4 == target_value(target),
{
    let v = target_value(target);
    assert((((v & 0xf) << 4) | 1) & 0x0f == 1 && (((v & 0xf) << 4) | 1) >> 4 == v) by (bit_vector)
        requires
            1 <= v <= 5,
    ;
}

pub fn routing_byte(target: AP2Target) -> (r: u8)
    ensures
        r == routing_value(target),
{
    let t = crate::commands::target_byte(target);
    ((t & 0xf) << 4) | 1
}

/// The full 65-byte report for a payload of at most 56 bytes: report id 0,
/// the 8-byte header (start marker, routing byte, payload length, end
/// marker), the payload verbatim, and zero padding up to 65 bytes.
pub open spec fn frame_bytes(target: AP2Target, payload: Seq<u8>) -> Seq<u8>
    recommends
        payload.len() <= 56,
{
    seq![
        0u8,
        0x7bu8,
        0x10u8,
        routing_value(target),
        0x10u8,
        payload.len() as u8,
        0u8,
        0u8,
        0x7du8,
    ] + payload + Seq::new((56 - payload.len()) as nat, |i: int| 0u8)
}

/// Every encoded frame is exactly 65 bytes, carries the payload length in
/// its length byte and the payload verbatim after the header, and its
/// routing byte's low nibble always encodes the host as the sender.
pub proof fn lemma_frame_shape(target: AP2Target, payload: Seq<u8>)
    requires
        payload.len() <= 56,
    ensures
        frame_bytes(target, payload).len() == 65,
        frame_bytes(target, payload)[5] == payload.len() as u8,
        frame_bytes(target, payload)[3] == routing_value(target),
        frame_bytes(target, payload)[3] & 0x0f == target_value(AP2Target::UsbHost),
        frame_bytes(target, payload).subrange(9, 9 + payload.len() as int) == payload,
{
    lemma_routing_low_nibble(target);
    assert(frame_bytes(target, payload).subrange(9, 9 + payload.len() as int) =~= payload);
}

/// Each payload byte sits in the frame right after the 9 leading bytes.
pub proof fn lemma_frame_payload_index(target: AP2Target, payload: Seq<u8>, i: int)
    requires
        payload.len() <= 56,
        0 <= i < payload.len(),
    ensures
        frame_bytes(target, payload)[9 + i] == payload[i],
{
}

/// Encodes a command for `target` into the 65-byte report that carries it.
/// A payload that does not fit in the report is refused outright rather than
/// truncated.
pub fn encode_frame(target: AP2Target, payload: &Vec<u8>) -> (r: Result<Vec<u8>, AP2FlashError>)
    ensures
        payload@.len() <= 56 ==> (r matches Ok(f) && f@ == frame_bytes(target, payload@)
            && f@.len() == 65),
        payload@.len() > 56 ==> (r matches Err(e) && e == AP2FlashError::OtherError),
{
    if payload.len() > 56 {
        return Err(AP2FlashError::OtherError);
    }
    let mut f: Vec<u8> = Vec::new();
    f.push(0);
    f.push(0x7b);
    f.push(0x10);
    f.push(routing_byte(target));
    f.push(0x10);
    f.push(payload.len() as u8);
    f.push(0);
    f.push(0);
    f.push(0x7d);
    let ghost header: Seq<u8> = f@;
    let mut i: usize = 0;
    while i < payload.len()
        invariant
            i <= payload@.len(),
            f@ == header + payload@.take(i as int),
            header.len() == 9,
        decreases payload@.len() - i,
    {
        f.push(payload[i]);
        proof {
            assert(f@ =~= header + payload@.take(i + 1));
        }
        i = i + 1;
    }
    proof {
        assert(payload@.take(payload@.len() as int) =~= payload@);
    }
    let ghost filled: Seq<u8> = f@;
    while f.len() < 65
        invariant
            filled == header + payload@,
            header.len() == 9,
            payload@.len() <= 56,
            filled.len() <= f@.len() <= 65,
            f@.take(filled.len() as int) == filled,
            forall|j: int| filled.len() <= j < f@.len() ==> f@[j] == 0u8,
        decreases 65 - f@.len(),
    {
        f.push(0);
        proof {
            assert(f@.take(filled.len() as int) =~= filled);
        }
    }
    proof {
        assert(forall|j: int| 0 <= j < filled.len() ==> f@[j] == filled[j]) by {
            assert(forall|j: int| 0 <= j < filled.len() ==> filled[j] == f@.take(
                filled.len() as int,
            )[j]);
        }
        assert(header =~= seq![
            0u8,
            0x7bu8,
            0x10u8,
            routing_value(target),
            0x10u8,
            payload@.len() as u8,
            0u8,
            0u8,
            0x7du8,
        ]);
        assert(filled.len() == 9 + payload@.len());
        assert(forall|j: int| 0 <= j < 9 ==> (header + payload@)[j] == header[j]);
        assert(forall|j: int| 9 <= j < 9 + payload@.len() ==> (header + payload@)[j] == payload@[
            j - 9
        ]);
        assert(forall|j: int| 0 <= j < 9 ==> f@[j] == header[j]);
        assert forall|j: int| 9 <= j < 9 + payload@.len() implies f@[j] == payload@[j - 9] by {
            assert(f@[j] == filled[j]);
            assert(filled[j] == (header + payload@)[j]);
        }
        assert(forall|j: int| 9 + payload@.len() <= j < 65 ==> f@[j] == 0u8);
        assert(f@ =~= frame_bytes(target, payload@));
    }
    Ok(f)
}

/// Encodes a command whose payload is known to fit in one report.
pub fn encode_frame_exact(target: AP2Target, payload: &Vec<u8>) -> (r: Vec<u8>)
    requires
        payload@.len() <= 56,
    ensures
        r@ == frame_bytes(target, payload@),
        r@.len() == 65,
{
    match encode_frame(target, payload) {
        Ok(f) => f,
        Err(_) => {
            proof {
                assert(false);
            }
            vstd::pervasive::unreached()
        },
    }
}

/// The fixed 12-byte boot control frame, sent raw and unpadded: the device's
/// reboot handler requires this exact short report, so it must never go
/// through the padded encoder.
pub open spec fn boot_command_bytes() -> Seq<u8> {
    seq![0x00u8, 0x7bu8, 0x10u8, 0x31u8, 0x10u8, 0x03u8, 0x00u8, 0x00u8, 0x7du8, 0x02u8, 0x01u8, 0x02u8]
}

pub fn boot_command() -> (r: Vec<u8>)
    ensures
        r@ == boot_command_bytes(),
        r@.len() == 12,
{
    let mut v: Vec<u8> = Vec::new();
    v.push(0x00);
    v.push(0x7b);
    v.push(0x10);
    v.push(0x31);
    v.push(0x10);
    v.push(0x03);
    v.push(0x00);
    v.push(0x00);
    v.push(0x7d);
    v.push(0x02);
    v.push(0x01);
    v.push(0x02);
    proof {
        assert(v@ =~= boot_command_bytes());
    }
    v
}

} // verus!
