//! Outbound information frames.
//!
//! A frame wraps the payload of a command: preamble, start marker, length,
//! length checksum, direction, the payload, payload checksum, postamble. Both
//! checksums make the bytes they cover add up to zero modulo 256.

use vstd::prelude::*;

verus! {

/// The byte that opens and closes a frame.
pub const PREAMBLE: u8 = 0x00;

/// The second byte of the start marker; the first is a `PREAMBLE`.
pub const START: u8 = 0xFF;

/// The direction byte of a frame from the host to the chip.
pub const HOST_TO_CHIP: u8 = 0xD4;

/// One more than the longest payload that fits a frame: the length field is
/// one byte and counts the direction byte too.
pub const PAYLOAD_LIMIT: usize = 254;

/// Bytes that a frame adds to its payload.
pub const OVERHEAD: usize = 8;

/// Where the length byte stands in a frame; its checksum stands behind it.
pub const LENGTH_AT: usize = 3;

/// Where the payload starts in a frame; the direction byte stands before it
/// and the payload checksum behind its last byte.
pub const PAYLOAD_AT: usize = 6;

/// The sum of `bytes`, as a number.
pub open spec fn sum(bytes: Seq<u8>) -> int
    decreases bytes.len(),
{
    if bytes.len() == 0 {
        0
    } else {
        sum(bytes.drop_last()) + bytes.last()
    }
}

/// The byte that brings `total` up to a multiple of 256.
pub open spec fn checksum(total: int) -> u8 {
    ((0 - total) % 256) as u8
}

/// The frame around `payload`.
pub open spec fn spec_encode(payload: Seq<u8>) -> Seq<u8> {
    seq![
        PREAMBLE,
        PREAMBLE,
        START,
        (payload.len() + 1) as u8,
        checksum(payload.len() as int + 1),
        HOST_TO_CHIP,
    ] + payload + seq![checksum(HOST_TO_CHIP + sum(payload)), PREAMBLE]
}

/// A checksum cancels what it was made for.
pub proof fn lemma_checksum_cancels(total: int)
    ensures
        (checksum(total) + total) % 256 == 0,
{
}

/// Whatever the payload, the length byte of its frame and the length checksum
/// add up to zero modulo 256, and so do the direction byte, the payload bytes
/// and the payload checksum.
pub proof fn lemma_frame_checksums(payload: Seq<u8>)
    requires
        payload.len() < PAYLOAD_LIMIT,
    ensures
        spec_encode(payload).len() == payload.len() + OVERHEAD,
        spec_encode(payload)[LENGTH_AT as int] == payload.len() + 1,
        (spec_encode(payload)[LENGTH_AT as int] + spec_encode(payload)[LENGTH_AT + 1]) % 256 == 0,
        spec_encode(payload)[PAYLOAD_AT - 1] == HOST_TO_CHIP,
        spec_encode(payload).subrange(PAYLOAD_AT as int, PAYLOAD_AT + payload.len()) == payload,
        (spec_encode(payload)[PAYLOAD_AT + payload.len()] + (HOST_TO_CHIP + sum(payload))) % 256
            == 0,
        sum(spec_encode(payload).subrange(PAYLOAD_AT - 1, PAYLOAD_AT + payload.len() + 1)) % 256
            == 0,
{
    let frame = spec_encode(payload);
    let n = payload.len() as int;
    assert(frame.subrange(PAYLOAD_AT as int, PAYLOAD_AT + n) =~= payload);
    lemma_checksum_cancels(n + 1);
    lemma_checksum_cancels(HOST_TO_CHIP + sum(payload));
    let covered = frame.subrange(PAYLOAD_AT - 1, PAYLOAD_AT + n + 1);
    assert(covered.drop_last() =~= seq![HOST_TO_CHIP] + payload);
    lemma_sum_concat(seq![HOST_TO_CHIP], payload);
    assert(seq![HOST_TO_CHIP].drop_last() =~= Seq::<u8>::empty());
    assert(sum(seq![HOST_TO_CHIP]) == HOST_TO_CHIP) by {
        reveal_with_fuel(sum, 2);
    }
}

/// The sum of two stretches laid end to end is the sum of their sums.
pub proof fn lemma_sum_concat(a: Seq<u8>, b: Seq<u8>)
    ensures
        sum(a + b) == sum(a) + sum(b),
    decreases b.len(),
{
    if b.len() == 0 {
        assert(a + b =~= a);
    } else {
        assert((a + b).drop_last() =~= a + b.drop_last());
        lemma_sum_concat(a, b.drop_last());
    }
}

/// Builds the frame that carries `payload` to the chip. The length byte and
/// its checksum add up to zero modulo 256, and so do the direction byte, the
/// payload and the payload checksum.
pub fn encode(payload: &[u8]) -> (frame: Vec<u8>)
    requires
        payload@.len() < PAYLOAD_LIMIT,
    ensures
        frame@ == spec_encode(payload@),
        frame@.len() == payload@.len() + OVERHEAD,
        frame@[LENGTH_AT as int] == payload@.len() + 1,
        (frame@[LENGTH_AT as int] + frame@[LENGTH_AT + 1]) % 256 == 0,
        (frame@[PAYLOAD_AT + payload@.len()] + (HOST_TO_CHIP + sum(payload@))) % 256 == 0,
{
    let len: u8 = (payload.len() + 1) as u8;
    let len_checksum: u8 = 0u8.wrapping_sub(len);
    let mut frame: Vec<u8> = Vec::with_capacity(payload.len() + OVERHEAD);
    frame.push(PREAMBLE);
    frame.push(PREAMBLE);
    frame.push(START);
    frame.push(len);
    frame.push(len_checksum);
    frame.push(HOST_TO_CHIP);
    let ghost head = frame@;
    let mut data_checksum: u8 = 0u8.wrapping_sub(HOST_TO_CHIP);
    let mut i: usize = 0;
    while i < payload.len()
        invariant
            i <= payload@.len(),
            frame@ == head + payload@.take(i as int),
            data_checksum == checksum(HOST_TO_CHIP + sum(payload@.take(i as int))),
        decreases payload@.len() - i,
    {
        let byte: u8 = payload[i];
        proof {
            assert(payload@.take(i + 1).drop_last() =~= payload@.take(i as int));
            assert(frame@.push(byte) =~= head + payload@.take(i + 1));
        }
        data_checksum = data_checksum.wrapping_sub(byte);
        frame.push(byte);
        i = i + 1;
    }
    proof {
        assert(payload@.take(i as int) =~= payload@);
    }
    frame.push(data_checksum);
    frame.push(PREAMBLE);
    proof {
        assert(frame@ =~= spec_encode(payload@));
        lemma_frame_checksums(payload@);
    }
    frame
}

/// Builds the frame that carries `payload` to the chip, or none where the
/// payload is too long for a frame.
pub fn try_encode(payload: &[u8]) -> (frame: Option<Vec<u8>>)
    ensures
        match frame {
            Some(bytes) => payload@.len() < PAYLOAD_LIMIT && bytes@ == spec_encode(payload@),
            None => payload@.len() >= PAYLOAD_LIMIT,
        },
{
    if payload.len() < PAYLOAD_LIMIT {
        Some(encode(payload))
    } else {
        None
    }
}

} // verus!
