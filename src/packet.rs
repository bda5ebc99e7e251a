//! The binary packet: `packet_length | padding_length | payload | padding`,
//! unencrypted and without a MAC.
use vstd::prelude::*;

use crate::cursor::Cursor;
use crate::error::WireError;
use crate::wire::{be_u32_at, lemma_be_u32_round_trip, u32_be_bytes, write_u32_be};

verus! {

/// The cipher block size that the framed length is a multiple of while no cipher is in use.
pub const BLOCK_SIZE: usize = 8;

/// The fewest padding bytes a packet may carry.
pub const MIN_PADDING: u8 = 4;

/// The largest payload that `encode` frames: its packet length must fit in a `u32`.
pub const MAX_PAYLOAD: usize = 0xffff_fff0;

/// What decoding the framed bytes `raw` gives: the payload, or why the framing is wrong.
pub open spec fn packet_payload(raw: Seq<u8>) -> Result<Seq<u8>, WireError> {
    if raw.len() < 5 {
        Err(WireError::Truncated)
    } else {
        let packet_length = be_u32_at(raw, 0) as int;
        let padding_length = raw[4] as int;
        if padding_length < MIN_PADDING {
            Err(WireError::InvalidPadding)
        } else if packet_length < padding_length + 1 || packet_length != raw.len() - 4 {
            Err(WireError::InvalidFraming)
        } else {
            Ok(raw.subrange(5, 4 + packet_length - padding_length))
        }
    }
}

/// The padding that `encode` chooses for a payload of `len` bytes: at least
/// four, and just enough to make the packet length a multiple of the block size.
pub open spec fn padding_for(len: nat) -> nat {
    4 + ((8 - ((len + 5) % 8) as int) % 8) as nat
}

/// The packet length field for a payload of `len` bytes.
pub open spec fn packet_length_for(len: nat) -> nat {
    1 + len + padding_for(len)
}

/// The bytes that `encode` produces for `payload`; the padding is zeros.
pub open spec fn framed(payload: Seq<u8>) -> Seq<u8> {
    let pad = padding_for(payload.len());
    u32_be_bytes(packet_length_for(payload.len()) as u32) + seq![pad as u8] + payload + Seq::new(
        pad,
        |i: int| 0u8,
    )
}

/// One deframed transport unit.
#[derive(Debug, Clone, PartialEq, Eq)]
pub struct Packet {
    pub payload: Vec<u8>,
}

impl Packet {
    /// Deframes exactly one packet from `raw`, which must hold the packet and
    /// nothing more.
    pub fn decode(raw: &[u8]) -> (r: Result<Packet, WireError>)
        ensures
            match packet_payload(raw@) {
                Ok(payload) => r matches Ok(p) && p.payload@ == payload,
                Err(e) => r matches Err(f) && f == e,
            },
    {
        let mut cur = Cursor::new(raw);
        let packet_length = match cur.read_u32_be() {
            Ok(v) => v,
            Err(e) => {
                return Err(e);
            },
        };
        let padding_length = match cur.read_u8() {
            Ok(v) => v,
            Err(e) => {
                return Err(e);
            },
        };
        if padding_length < MIN_PADDING {
            return Err(WireError::InvalidPadding);
        }
        if (packet_length as usize) < padding_length as usize + 1 || packet_length as usize - 1
            != cur.remaining() {
            return Err(WireError::InvalidFraming);
        }
        let payload_length = packet_length as usize - padding_length as usize - 1;
        let payload = match cur.read_bytes(payload_length) {
            Ok(b) => b,
            Err(e) => {
                return Err(e);
            },
        };
        assert(payload@ =~= raw@.subrange(
            5,
            4 + packet_length as int - padding_length as int,
        ));
        Ok(Packet { payload: vstd::slice::slice_to_vec(payload) })
    }

    /// Frames `payload` with the least padding that the framing rules allow.
    pub fn encode(payload: &[u8]) -> (r: Vec<u8>)
        requires
            payload@.len() <= MAX_PAYLOAD,
        ensures
            r@ == framed(payload@),
    {
        let len = payload.len();
        let pad: usize = 4 + (8 - (len + 5) % 8) % 8;
        let packet_length: u32 = (1 + len + pad) as u32;
        let mut out: Vec<u8> = Vec::new();
        let pad_byte: u8 = pad as u8;
        write_u32_be(&mut out, packet_length);
        out.push(pad_byte);
        let mut i: usize = 0;
        while i < len
            invariant
                i <= len,
                len == payload@.len(),
                out@ == u32_be_bytes(packet_length) + seq![pad_byte] + payload@.take(i as int),
            decreases len - i,
        {
            out.push(payload[i]);
            i = i + 1;
            assert(out@ =~= u32_be_bytes(packet_length) + seq![pad_byte] + payload@.take(
                i as int,
            ));
        }
        assert(payload@.take(len as int) =~= payload@);
        assert(out@ =~= u32_be_bytes(packet_length) + seq![pad_byte] + payload@ + Seq::new(
            0,
            |j: int| 0u8,
        ));
        let mut k: usize = 0;
        while k < pad
            invariant
                k <= pad,
                out@ == u32_be_bytes(packet_length) + seq![pad_byte] + payload@ + Seq::new(
                    k as nat,
                    |j: int| 0u8,
                ),
            decreases pad - k,
        {
            out.push(0u8);
            k = k + 1;
            assert(out@ =~= u32_be_bytes(packet_length) + seq![pad_byte] + payload@ + Seq::new(
                k as nat,
                |j: int| 0u8,
            ));
        }
        out
    }
}

/// Decoding what `encode` produced gives back the payload, and the framing
/// meets the rules: at least four bytes of padding, and a packet length that is
/// a multiple of the block size.
pub proof fn lemma_packet_round_trip(payload: Seq<u8>)
    requires
        payload.len() <= MAX_PAYLOAD,
    ensures
        packet_payload(framed(payload)) == Ok::<Seq<u8>, WireError>(payload),
        padding_for(payload.len()) >= MIN_PADDING,
        packet_length_for(payload.len()) % (BLOCK_SIZE as nat) == 0,
        framed(payload).len() == 4 + packet_length_for(payload.len()),
{
    let raw = framed(payload);
    let pad = padding_for(payload.len());
    let plen = packet_length_for(payload.len());
    lemma_be_u32_round_trip(plen as u32);
    assert(raw.subrange(0, 4) =~= u32_be_bytes(plen as u32));
    assert(be_u32_at(raw, 0) == be_u32_at(u32_be_bytes(plen as u32), 0));
    assert(raw[4] == pad as u8);
    assert(raw.subrange(5, 5 + payload.len() as int) =~= payload);
}

} // verus!
