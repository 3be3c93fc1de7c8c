//! Class-specific control requests of the audio function.
//!
//! A SETUP packet's `value` carries the control selector (high byte) and the
//! channel number (low byte); its `index` carries the entity ID (high byte)
//! and the interface number (low byte). The clock source reports a fixed
//! 48 kHz rate out of {44.1 kHz, 48 kHz}; the speaker's feature unit reports
//! unmuted, full volume. Every request that is not understood is rejected,
//! which the driver answers with a STALL.

use vstd::prelude::*;
use crate::descriptors::{le16, le32};
use crate::uac2_constants::{
    CUR, FU_MUTE_CONTROL, FU_VOLUME_CONTROL, RANGE, UAC2_ENTITY_CLOCK, UAC2_ENTITY_SPK_FEATURE_UNIT,
};

verus! {

/// Direction of the data stage.
#[derive(Clone, Copy, Debug, PartialEq, Eq, Structural)]
pub enum Direction {
    Out,
    In,
}

/// Type of a control request.
#[derive(Clone, Copy, Debug, PartialEq, Eq, Structural)]
pub enum RequestType {
    Standard,
    Class,
    Vendor,
    Reserved,
}

/// Recipient of a control request.
#[derive(Clone, Copy, Debug, PartialEq, Eq, Structural)]
pub enum Recipient {
    Device,
    Interface,
    Endpoint,
    Other,
    Reserved,
}

/// A decoded SETUP packet.
#[derive(Clone, Copy, Debug, PartialEq, Eq, Structural)]
pub struct ControlRequest {
    pub direction: Direction,
    pub request_type: RequestType,
    pub recipient: Recipient,
    pub request: u8,
    pub value: u16,
    pub index: u16,
    pub length: u16,
}

/// Answer to a request with an IN data stage.
#[derive(Clone, Copy, Debug, PartialEq, Eq, Structural)]
pub enum InResponse {
    /// The payload was placed at the front of the caller's buffer; this many
    /// bytes of it are to be sent.
    Accepted(usize),
    Rejected,
}

/// Answer to a request with an OUT data stage (or none).
#[derive(Clone, Copy, Debug, PartialEq, Eq, Structural)]
pub enum OutResponse {
    Accepted,
    Rejected,
}

/// Sample rate that the clock source runs at, in Hz.
pub const SAMPLE_RATE_HZ: u32 = 48000;

/// The other rate that the clock source advertises, in Hz.
pub const SAMPLE_RATE_ALT_HZ: u32 = 44100;

/// Control selector: high byte of `value`.
pub open spec fn control_selector(req: ControlRequest) -> u8 {
    (req.value / 256) as u8
}

/// Entity ID: high byte of `index`.
pub open spec fn entity(req: ControlRequest) -> u8 {
    (req.index / 256) as u8
}

/// Two's-complement 32-bit pattern of a signed value.
pub open spec fn twos32(v: i32) -> u32 {
    (if v < 0 {
        v as int + 0x1_0000_0000
    } else {
        v as int
    }) as u32
}

/// Two's-complement 16-bit pattern of a signed value.
pub open spec fn twos16(v: i16) -> u16 {
    (if v < 0 {
        v as int + 0x1_0000
    } else {
        v as int
    }) as u16
}

/// Little-endian bytes of a signed 32-bit value, in two's complement.
pub open spec fn le32_signed(v: i32) -> Seq<u8> {
    le32(twos32(v))
}

/// Little-endian bytes of a signed 16-bit value, in two's complement.
pub open spec fn le16_signed(v: i16) -> Seq<u8> {
    le16(twos16(v))
}

/// Layout-3 parameter block with two fixed subranges: the count, then for
/// each value its (min, max, res) = (value, value, 0).
pub open spec fn layout_3_fixed_2_spec(value1: i32, value2: i32) -> Seq<u8> {
    le16(2) + le32_signed(value1) + le32_signed(value1) + le32_signed(0) + le32_signed(value2)
        + le32_signed(value2) + le32_signed(0)
}

/// Layout-2 parameter block with one subrange: the count, then min, max, res.
pub open spec fn layout_2_range_1_spec(min: i16, max: i16, res: i16) -> Seq<u8> {
    le16(1) + le16_signed(min) + le16_signed(max) + le16_signed(res)
}

/// Whether a request is a class request addressed to an interface; every
/// other request is rejected before it is looked at further.
pub open spec fn is_class_interface(req: ControlRequest) -> bool {
    req.request_type == RequestType::Class && req.recipient == Recipient::Interface
}

/// The payload that answers a request with an IN data stage, or `None` where
/// the request is to be rejected.
pub open spec fn in_payload(req: ControlRequest) -> Option<Seq<u8>> {
    if !is_class_interface(req) || req.direction != Direction::In {
        None
    } else if entity(req) == UAC2_ENTITY_CLOCK {
        if req.request == CUR {
            Some(le32(SAMPLE_RATE_HZ))
        } else if req.request == RANGE {
            Some(layout_3_fixed_2_spec(SAMPLE_RATE_ALT_HZ as i32, SAMPLE_RATE_HZ as i32))
        } else {
            None
        }
    } else if entity(req) == UAC2_ENTITY_SPK_FEATURE_UNIT {
        if control_selector(req) == FU_MUTE_CONTROL && req.request == CUR {
            Some(seq![0u8])
        } else if control_selector(req) == FU_VOLUME_CONTROL && req.request == CUR {
            Some(le16_signed(i16::MAX))
        } else if control_selector(req) == FU_VOLUME_CONTROL && req.request == RANGE {
            Some(layout_2_range_1_spec(i16::MIN, i16::MAX, 1))
        } else {
            None
        }
    } else {
        None
    }
}

/// Whether a request with an OUT data stage is accepted: any setting of the
/// clock source, and mute or volume of the speaker's feature unit. The values
/// are taken and dropped.
pub open spec fn out_accepted(req: ControlRequest) -> bool {
    is_class_interface(req) && (entity(req) == UAC2_ENTITY_CLOCK || (entity(req)
        == UAC2_ENTITY_SPK_FEATURE_UNIT && (control_selector(req) == FU_MUTE_CONTROL
        || control_selector(req) == FU_VOLUME_CONTROL)))
}

/// Copies `src` to the front of `buf`, leaving the rest of `buf` as it was.
pub fn copy_to_buf(buf: &mut [u8], src: &[u8])
    requires
        src@.len() <= old(buf)@.len(),
    ensures
        final(buf)@ == src@ + old(buf)@.skip(src@.len() as int),
{
    let mut i: usize = 0;
    while i < src.len()
        invariant
            i <= src@.len() <= buf@.len(),
            buf@.len() == old(buf)@.len(),
            buf@ == src@.take(i as int) + old(buf)@.skip(i as int),
        decreases src@.len() - i,
    {
        buf[i] = src[i];
        i = i + 1;
        assert(buf@ =~= src@.take(i as int) + old(buf)@.skip(i as int));
    }
    assert(src@.take(i as int) =~= src@);
}

/// Writes the little-endian bytes of `x` at `at`.
fn write_le32(buf: &mut [u8], at: usize, x: u32)
    requires
        at + 4 <= old(buf)@.len(),
    ensures
        final(buf)@ == old(buf)@.take(at as int) + le32(x) + old(buf)@.skip(at + 4),
{
    buf[at] = (x % 256) as u8;
    buf[at + 1] = ((x / 256) % 256) as u8;
    buf[at + 2] = ((x / 65536) % 256) as u8;
    buf[at + 3] = (x / 16777216) as u8;
    assert(buf@ =~= old(buf)@.take(at as int) + le32(x) + old(buf)@.skip(at + 4));
}

/// Writes the little-endian bytes of `x` at `at`.
fn write_le16(buf: &mut [u8], at: usize, x: u16)
    requires
        at + 2 <= old(buf)@.len(),
    ensures
        final(buf)@ == old(buf)@.take(at as int) + le16(x) + old(buf)@.skip(at + 2),
{
    buf[at] = (x % 256) as u8;
    buf[at + 1] = (x / 256) as u8;
    assert(buf@ =~= old(buf)@.take(at as int) + le16(x) + old(buf)@.skip(at + 2));
}

/// The two's-complement pattern of `v`.
fn to_twos32(v: i32) -> (r: u32)
    ensures
        r == twos32(v),
{
    if v < 0 {
        (v as i64 + 0x1_0000_0000) as u32
    } else {
        v as u32
    }
}

/// The two's-complement pattern of `v`.
fn to_twos16(v: i16) -> (r: u16)
    ensures
        r == twos16(v),
{
    if v < 0 {
        (v as i32 + 0x1_0000) as u16
    } else {
        v as u16
    }
}

/// Encodes a Layout-3 parameter block of two fixed subranges, `value1` then
/// `value2`, each with min = max = the value and res = 0.
pub fn layout_3_range_fixed_2(value1: i32, value2: i32) -> (r: [u8; 26])
    ensures
        r@ == layout_3_fixed_2_spec(value1, value2),
{
    let mut ret: [u8; 26] = [0; 26];
    write_le16(&mut ret, 0, 2);
    let v1 = to_twos32(value1);
    let v2 = to_twos32(value2);
    write_le32(&mut ret, 2, v1);
    write_le32(&mut ret, 6, v1);
    write_le32(&mut ret, 14, v2);
    write_le32(&mut ret, 18, v2);
    assert(ret@ =~= layout_3_fixed_2_spec(value1, value2));
    ret
}

/// Encodes a Layout-2 parameter block of one subrange.
pub fn layout_2_range_1(min: i16, max: i16, res: i16) -> (r: [u8; 8])
    ensures
        r@ == layout_2_range_1_spec(min, max, res),
{
    let mut ret: [u8; 8] = [0; 8];
    write_le16(&mut ret, 0, 1);
    write_le16(&mut ret, 2, to_twos16(min));
    write_le16(&mut ret, 4, to_twos16(max));
    write_le16(&mut ret, 6, to_twos16(res));
    assert(ret@ =~= layout_2_range_1_spec(min, max, res));
    ret
}

/// Places `payload` at the front of `buf` when it fits.
fn answer(buf: &mut [u8], payload: &[u8]) -> (r: InResponse)
    ensures
        payload@.len() <= old(buf)@.len() ==> r == InResponse::Accepted(payload@.len() as usize)
            && final(buf)@ == payload@ + old(buf)@.skip(payload@.len() as int),
        payload@.len() > old(buf)@.len() ==> r == InResponse::Rejected && final(buf)@ == old(buf)@,
{
    if payload.len() <= buf.len() {
        copy_to_buf(buf, payload);
        InResponse::Accepted(payload.len())
    } else {
        InResponse::Rejected
    }
}

/// Answers a request with an IN data stage. A known request has its payload
/// copied to the front of `buf` and is accepted with the payload's length; a
/// request that is not known, or whose payload does not fit in `buf`, is
/// rejected and `buf` is left as it was.
pub fn control_in(req: &ControlRequest, buf: &mut [u8]) -> (r: InResponse)
    ensures
        match in_payload(*req) {
            Some(p) => if p.len() <= old(buf)@.len() {
                r == InResponse::Accepted(p.len() as usize) && final(buf)@ == p + old(buf)@.skip(
                    p.len() as int,
                )
            } else {
                r == InResponse::Rejected && final(buf)@ == old(buf)@
            },
            None => r == InResponse::Rejected && final(buf)@ == old(buf)@,
        },
{
    if req.request_type != RequestType::Class || req.recipient != Recipient::Interface {
        return InResponse::Rejected;
    }
    if req.direction != Direction::In {
        return InResponse::Rejected;
    }
    let cs = (req.value / 256) as u8;
    let entity_id = (req.index / 256) as u8;
    if entity_id == UAC2_ENTITY_CLOCK {
        if req.request == CUR {
            let mut freq: [u8; 4] = [0; 4];
            write_le32(&mut freq, 0, SAMPLE_RATE_HZ);
            assert(freq@ =~= le32(SAMPLE_RATE_HZ));
            answer(buf, freq.as_slice())
        } else if req.request == RANGE {
            let range = layout_3_range_fixed_2(SAMPLE_RATE_ALT_HZ as i32, SAMPLE_RATE_HZ as i32);
            answer(buf, range.as_slice())
        } else {
            InResponse::Rejected
        }
    } else if entity_id == UAC2_ENTITY_SPK_FEATURE_UNIT {
        if cs == FU_MUTE_CONTROL && req.request == CUR {
            let unmuted: [u8; 1] = [0];
            assert(unmuted@ =~= seq![0u8]);
            answer(buf, unmuted.as_slice())
        } else if cs == FU_VOLUME_CONTROL && req.request == CUR {
            let mut volume: [u8; 2] = [0; 2];
            write_le16(&mut volume, 0, to_twos16(i16::MAX));
            assert(volume@ =~= le16_signed(i16::MAX));
            answer(buf, volume.as_slice())
        } else if cs == FU_VOLUME_CONTROL && req.request == RANGE {
            let range = layout_2_range_1(i16::MIN, i16::MAX, 1);
            answer(buf, range.as_slice())
        } else {
            InResponse::Rejected
        }
    } else {
        InResponse::Rejected
    }
}

/// Answers a request with an OUT data stage: settings of the clock source and
/// of the feature unit's mute and volume are accepted (and have no effect);
/// every other request is rejected.
pub fn control_out(req: &ControlRequest, data: &[u8]) -> (r: OutResponse)
    ensures
        r == OutResponse::Accepted <==> out_accepted(*req),
        r == OutResponse::Rejected <==> !out_accepted(*req),
{
    let _ = data;
    if req.request_type != RequestType::Class || req.recipient != Recipient::Interface {
        return OutResponse::Rejected;
    }
    let cs = (req.value / 256) as u8;
    let entity_id = (req.index / 256) as u8;
    if entity_id == UAC2_ENTITY_CLOCK {
        OutResponse::Accepted
    } else if entity_id == UAC2_ENTITY_SPK_FEATURE_UNIT && (cs == FU_MUTE_CONTROL || cs == FU_VOLUME_CONTROL) {
        OutResponse::Accepted
    } else {
        OutResponse::Rejected
    }
}

} // verus!
