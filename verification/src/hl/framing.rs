//! Filling the transmit buffer
//!
//! The contents of a frame are placed in the transmit buffer as the `byte`
//! crate writes a byte slice into a larger one, and IEEE 802.15.4 headers
//! are produced by `smoltcp`.

use vstd::prelude::*;

use crate::ll::registers::TX_BUFFER;
use crate::ll::{Writable, W};
use smoltcp::wire::{
    Ieee802154Address, Ieee802154Frame, Ieee802154FrameType, Ieee802154FrameVersion, Ieee802154Pan,
    Ieee802154Repr,
};

verus! {

/// The capacity of the transmit buffer that the driver uses
pub const TX_DATA_LEN: usize = 127;

/// The transmit buffer, header included, that holds `bytes` followed by
/// zeros
pub open spec fn tx_buffer_holding(bytes: Seq<u8>) -> Seq<u8> {
    seq![0u8, 0u8] + bytes + Seq::new((TX_DATA_LEN - bytes.len()) as nat, |i: int| 0u8)
}

/// The two bytes of a PAN ID, least significant first
pub open spec fn pan_bytes(pan: u16) -> Seq<u8> {
    seq![(pan % 256) as u8, (pan / 256) as u8]
}

/// The MAC header that `smoltcp` emits for an IEEE 802.15.4 frame with
/// short destination and source addresses, from the frame type and version
/// codes, the security, frame pending and acknowledgement request bits, PAN
/// ID compression, sequence number, destination PAN (if any), destination
/// address, source PAN (if any) and source address:
/// - the frame control, least significant byte first: the frame type (its
///   low three bits), bits 3 to 6 the four flags, the short addressing mode
///   (0b10) of the destination at bits 10-11 and of the source at bits
///   14-15, the frame version (its low two bits) at bits 12-13;
/// - the sequence number;
/// - the destination PAN (zero where there is none) and the destination
///   address, its two bytes in reverse order;
/// - without PAN ID compression the source PAN (zero where there is none);
/// - the source address, its two bytes in reverse order.
pub open spec fn ieee802154_header(
    frame_type: u8,
    frame_version: u8,
    security_enabled: bool,
    frame_pending: bool,
    ack_request: bool,
    pan_id_compression: bool,
    seq: u8,
    dst_pan_id: Option<u16>,
    dst_addr: Seq<u8>,
    src_pan_id: Option<u16>,
    src_addr: Seq<u8>,
) -> Seq<u8> {
    let fc0 = (frame_type % 8 + (if security_enabled { 8int } else { 0 }) + (if frame_pending { 16int } else { 0 })
        + (if ack_request { 32int } else { 0 }) + (if pan_id_compression { 64int } else { 0 })) as u8;
    let fc1 = (0x88 + (frame_version % 4) * 16) as u8;
    let dst_pan = match dst_pan_id {
        Some(p) => pan_bytes(p),
        None => seq![0u8, 0u8],
    };
    let src_pan = if pan_id_compression {
        Seq::empty()
    } else {
        match src_pan_id {
            Some(p) => pan_bytes(p),
            None => seq![0u8, 0u8],
        }
    };
    seq![fc0, fc1, seq] + dst_pan + seq![dst_addr[1], dst_addr[0]] + src_pan + seq![src_addr[1], src_addr[0]]
}

/// Emits the header of an IEEE 802.15.4 frame with short destination and
/// source addresses with `smoltcp::wire::Ieee802154Repr::emit`, into a
/// zeroed buffer of `Ieee802154Repr::buffer_len()` bytes.
///
/// The header is `ieee802154_header` of the arguments, as the frame's
/// setters in the source place each field (`set_frame_type` and
/// `set_frame_version` keep the low three and two bits of the codes, the
/// flags are or-ed into the frame control, a short address is written in
/// reverse byte order, a PAN least significant byte first, and the source
/// PAN only without PAN ID compression). Its length, `buffer_len`, is 3 + 2
/// for the frame control, sequence number and destination PAN, 2 for the
/// short destination address, 2 more for the source PAN where the PAN ID is
/// not compressed, and 2 for the short source address. With a short
/// destination address no field lies beyond that length, so `emit` does not
/// panic.
#[verifier::external_body]
fn emit_header(
    frame_type: u8,
    frame_version: u8,
    security_enabled: bool,
    frame_pending: bool,
    ack_request: bool,
    pan_id_compression: bool,
    seq: u8,
    dst_pan_id: Option<u16>,
    dst_addr: [u8; 2],
    src_pan_id: Option<u16>,
    src_addr: [u8; 2],
) -> (h: Vec<u8>)
    ensures
        h@ == ieee802154_header(frame_type, frame_version, security_enabled, frame_pending,
            ack_request, pan_id_compression, seq, dst_pan_id, dst_addr@, src_pan_id, src_addr@),
        h@.len() == if pan_id_compression { 9int } else { 11int },
{
    let repr = Ieee802154Repr {
        frame_type: Ieee802154FrameType::from(frame_type), frame_version: Ieee802154FrameVersion::from(frame_version),
        security_enabled, frame_pending, ack_request, pan_id_compression, sequence_number: Some(seq),
        dst_pan_id: dst_pan_id.map(Ieee802154Pan), dst_addr: Some(Ieee802154Address::Short(dst_addr)),
        src_pan_id: src_pan_id.map(Ieee802154Pan), src_addr: Some(Ieee802154Address::Short(src_addr)),
    };
    let mut buf = vec![0u8; repr.buffer_len()];
    repr.emit(&mut Ieee802154Frame::new_unchecked(&mut buf[..]));
    buf
}

/// The header that `send` gives its frames: an IEEE 802.15.4-2006 data
/// frame (type code 1, version code 1) without security, frame pending or
/// acknowledgement request, with sequence number `seq`, sent to the
/// broadcast address 0xffff from the short address `short_addr`, with PAN
/// ID compression (source PAN `pan_id`, no destination PAN)
pub open spec fn data_frame_header(seq: u8, pan_id: u16, short_addr: Seq<u8>) -> Seq<u8> {
    ieee802154_header(1, 1, false, false, false, true, seq, None, seq![0xffu8, 0xffu8], Some(pan_id), short_addr)
}

/// Writes `data` into `buf` at `*offset` with `byte::BytesExt::write`;
/// `true` where the crate returns `Ok`.
///
/// As the crate's source shows: an offset past the end of `buf` fails
/// (`BadOffset`), so does a slice longer than what follows the offset
/// (`Incomplete`); in both cases nothing is written and the offset stays.
/// Otherwise the slice is copied to the offset, which then points past it.
#[verifier::external_body]
fn byte_write_slice(buf: &mut [u8], offset: &mut usize, data: &[u8]) -> (ok: bool)
    ensures
        ok <==> (*old(offset) <= old(buf)@.len() && data@.len() <= old(buf)@.len() - *old(offset)),
        ok ==> final(buf)@ == old(buf)@.subrange(0, *old(offset) as int) + data@
            + old(buf)@.subrange(*old(offset) + data@.len(), old(buf)@.len() as int),
        ok ==> *final(offset) == *old(offset) + data@.len(),
        !ok ==> final(buf)@ == old(buf)@ && *final(offset) == *old(offset),
{
    <[u8] as byte::BytesExt<()>>::write(buf, offset, data).is_ok()
}

/// Places `data` at the start of the transmit buffer, as `send_raw` and
/// `send_frame` do; the frame is `data.len()` bytes long
pub fn tx_buffer_with(data: &[u8]) -> (r: (W<TX_BUFFER>, usize))
    requires
        data@.len() <= TX_DATA_LEN,
    ensures
        r.0.wf(),
        r.0@ == tx_buffer_holding(data@),
        r.1 == data@.len(),
{
    proof {
        TX_BUFFER::layout();
    }
    let mut w = TX_BUFFER::write();
    let mut len: usize = 0;
    let d = w.data();
    let ok = byte_write_slice(d, &mut len, data);
    proof {
        assert(ok);
        assert(w@ =~= tx_buffer_holding(data@));
    }
    (w, len)
}

/// Successive frames of `send` carry successive sequence numbers: `send`
/// takes the number from `next_seq`, which then steps it by one, wrapping
/// after 255, and the number is byte 2 of the frame header.
pub proof fn lemma_successive_sequence_numbers(seq: u8, pan_id: u16, short_addr: Seq<u8>)
    ensures
        data_frame_header(seq, pan_id, short_addr)[2] == seq,
        data_frame_header(if seq == 255 { 0 } else { (seq + 1) as u8 }, pan_id, short_addr)[2] == (seq + 1) % 256,
{
}

/// The transmit buffer of a frame made of `header`, then `data`, then a
/// zero footer byte, as `send` fills it; the frame length counts two more
/// bytes for the footer.
///
/// `None` where header, data and footer do not fit the transmit buffer.
pub fn tx_buffer_framed(header: &[u8], data: &[u8]) -> (r: Option<(W<TX_BUFFER>, usize)>)
    ensures
        r is Some <==> header@.len() + data@.len() + 1 <= TX_DATA_LEN,
        r matches Some((w, len)) ==> w.wf() && w@ == tx_buffer_holding(header@ + data@ + seq![0u8])
            && len == header@.len() + data@.len() + 2,
{
    proof {
        TX_BUFFER::layout();
    }
    if header.len() >= TX_DATA_LEN || data.len() > TX_DATA_LEN - header.len() - 1 {
        return None;
    }
    let mut w = TX_BUFFER::write();
    let mut len: usize = 0;
    let d = w.data();
    let ok1 = byte_write_slice(d, &mut len, header);
    let ok2 = byte_write_slice(d, &mut len, data);
    let footer: [u8; 1] = [0x00];
    let ok3 = byte_write_slice(d, &mut len, &footer);
    proof {
        assert(ok1 && ok2 && ok3);
        assert(footer@ =~= seq![0u8]);
        assert(w@ =~= tx_buffer_holding(header@ + data@ + seq![0u8]));
    }
    Some((w, len + 1))
}

/// The transmit buffer contents of `send`: the data frame header that
/// `smoltcp` emits (see [`data_frame_header`]), then `data`, then a zero
/// footer byte. The frame length counts two more bytes for the footer. The
/// sequence number is byte 2 of the frame.
///
/// `None` where header, data and footer do not fit the transmit buffer.
pub fn tx_buffer_for_send(seq: u8, pan_id: u16, short_addr: [u8; 2], data: &[u8]) -> (r: Option<(W<TX_BUFFER>, usize)>)
    ensures
        ({
            let h = data_frame_header(seq, pan_id, short_addr@);
            &&& h.len() == 9
            &&& h[2] == seq
            &&& r is Some <==> h.len() + data@.len() + 1 <= TX_DATA_LEN
            &&& r matches Some((w, len)) ==> w.wf() && w@ == tx_buffer_holding(h + data@ + seq![0u8])
                && len == h.len() + data@.len() + 2 && w@[4] == seq
        }),
{
    let broadcast: [u8; 2] = [0xff, 0xff];
    let header = emit_header(1, 1, false, false, false, true, seq, None, broadcast, Some(pan_id), short_addr);
    proof {
        assert(broadcast@ =~= seq![0xffu8, 0xffu8]);
    }
    tx_buffer_framed(header.as_slice(), data)
}

} // verus!
