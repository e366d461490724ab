//! Finding the chip's answer in a snapshot of the bus.
//!
//! A read hands back whatever the chip's output register holds, with stale
//! bytes in front of and behind what matters. Both scanners walk a snapshot
//! from its first byte with the same automaton, stop at the first byte that
//! follows a start marker, and judge by that byte alone. They keep nothing
//! from one snapshot to the next.

use crate::error::Error;
use crate::frame::spec_encode;
use crate::frame::LENGTH_AT;
use crate::frame::PAYLOAD_AT;
use crate::frame::PAYLOAD_LIMIT;
use crate::frame::PREAMBLE;
use crate::frame::START;
use vstd::prelude::*;
use vstd::slice::slice_subrange;
use vstd::slice::slice_to_vec;

verus! {

/// Bytes in a snapshot of the bus.
pub const SNAPSHOT_LEN: usize = 256;

/// The byte behind a start marker that acknowledges a frame.
pub const ACK: u8 = 0x00;

/// The byte behind a start marker that rejects a frame.
pub const NACK: u8 = 0xFF;

/// The byte behind a start marker that announces a fault code.
pub const FAULT: u8 = 0x01;

/// How far behind a `FAULT` byte the fault code stands.
pub const FAULT_CODE_OFFSET: usize = 2;

/// How far behind the length byte of a response its payload starts: the
/// length checksum and the direction byte lie between.
pub const PAYLOAD_OFFSET: usize = 3;

/// How much of a start marker the bytes read so far end in.
#[derive(Clone, Copy, Debug, PartialEq, Eq, Structural)]
pub enum ScanState {
    /// Nothing of it.
    Idle,
    /// Its first byte, a preamble.
    SawPreamble,
    /// All of it: the next byte decides.
    SawStart,
}

impl ScanState {
    /// The state after `byte`. A preamble opens a marker or keeps one open, a
    /// start byte behind a preamble completes it, and any other byte, like
    /// any byte behind a complete marker, leaves nothing.
    pub open spec fn spec_next(self, byte: u8) -> ScanState {
        match self {
            ScanState::Idle => if byte == PREAMBLE {
                ScanState::SawPreamble
            } else {
                ScanState::Idle
            },
            ScanState::SawPreamble => if byte == PREAMBLE {
                ScanState::SawPreamble
            } else if byte == START {
                ScanState::SawStart
            } else {
                ScanState::Idle
            },
            ScanState::SawStart => ScanState::Idle,
        }
    }

    /// Moves the automaton over one byte.
    pub fn next(self, byte: u8) -> (r: ScanState)
        ensures
            r == self.spec_next(byte),
    {
        match self {
            ScanState::Idle => if byte == PREAMBLE {
                ScanState::SawPreamble
            } else {
                ScanState::Idle
            },
            ScanState::SawPreamble => if byte == PREAMBLE {
                ScanState::SawPreamble
            } else if byte == START {
                ScanState::SawStart
            } else {
                ScanState::Idle
            },
            ScanState::SawStart => ScanState::Idle,
        }
    }
}

/// Whether the two bytes in front of index `i` are a start marker.
pub open spec fn marker_before(buf: Seq<u8>, i: int) -> bool {
    2 <= i <= buf.len() && buf[i - 2] == PREAMBLE && buf[i - 1] == START
}

/// The index of the first byte at or behind `from` that follows a start
/// marker, or the length of `buf` where there is none.
pub open spec fn first_verdict(buf: Seq<u8>, from: int) -> int
    decreases buf.len() - from,
{
    if from >= buf.len() {
        buf.len() as int
    } else if marker_before(buf, from) {
        from
    } else {
        first_verdict(buf, from + 1)
    }
}

/// `first_verdict` finds a byte behind a start marker, and the first one.
pub proof fn lemma_first_verdict(buf: Seq<u8>, from: int)
    requires
        0 <= from <= buf.len(),
    ensures
        from <= first_verdict(buf, from) <= buf.len(),
        first_verdict(buf, from) < buf.len() ==> marker_before(buf, first_verdict(buf, from)),
        forall|j: int| from <= j < first_verdict(buf, from) ==> !marker_before(buf, j),
    decreases buf.len() - from,
{
    if from < buf.len() && !marker_before(buf, from) {
        lemma_first_verdict(buf, from + 1);
    }
}

/// An index with no byte behind a start marker before it, which is itself
/// such a byte or the end of `buf`, is what `first_verdict` finds.
pub proof fn lemma_first_verdict_unique(buf: Seq<u8>, from: int, i: int)
    requires
        0 <= from <= i <= buf.len(),
        i < buf.len() ==> marker_before(buf, i),
        forall|j: int| from <= j < i ==> !marker_before(buf, j),
    ensures
        first_verdict(buf, from) == i,
    decreases i - from,
{
    if from < i {
        lemma_first_verdict_unique(buf, from + 1, i);
    }
}

/// The state of the automaton that set out `Idle` and has read the first `i`
/// bytes of `buf`.
pub open spec fn state_after(buf: Seq<u8>, i: int) -> ScanState
    decreases i,
{
    if i <= 0 {
        ScanState::Idle
    } else {
        state_after(buf, i - 1).spec_next(buf[i - 1])
    }
}

/// What the automaton knows: as long as no byte read so far followed a start
/// marker, it is in `SawStart` exactly when the last two bytes are a start
/// marker, and in `SawPreamble` exactly when the last byte is a preamble.
pub proof fn lemma_state_after(buf: Seq<u8>, i: int)
    requires
        0 <= i <= buf.len(),
        forall|j: int| 0 <= j < i ==> !marker_before(buf, j),
    ensures
        state_after(buf, i) is SawStart <==> marker_before(buf, i),
        state_after(buf, i) is SawPreamble <==> i >= 1 && buf[i - 1] == PREAMBLE,
    decreases i,
{
    if i > 0 {
        lemma_state_after(buf, i - 1);
    }
}

/// What the byte at `i` means to one who waits for an acknowledgement.
pub open spec fn ack_verdict(buf: Seq<u8>, i: int) -> Result<(), Error> {
    if buf[i] == ACK {
        Ok(())
    } else if buf[i] == NACK {
        Err(Error::Nack)
    } else if buf[i] == FAULT {
        Err(fault(buf, i))
    } else {
        Err(Error::OutOfOrder)
    }
}

/// The fault that a `FAULT` byte at `i` announces: the code stands two bytes
/// further on. Where the snapshot ends before it, the fault cannot be read.
pub open spec fn fault(buf: Seq<u8>, i: int) -> Error {
    if i + FAULT_CODE_OFFSET < buf.len() {
        Error::ApplicationError(buf[i + FAULT_CODE_OFFSET])
    } else {
        Error::DecodeError
    }
}

/// What a snapshot says to one who waits for an acknowledgement: `None` where
/// no start marker is followed by a byte, else the meaning of the byte behind
/// the first marker.
pub open spec fn spec_scan_ack(buf: Seq<u8>) -> Option<Result<(), Error>> {
    let i = first_verdict(buf, 0);
    if i < buf.len() {
        Some(ack_verdict(buf, i))
    } else {
        None
    }
}

/// What the byte at `i` means to one who waits for a response. An
/// acknowledgement or a rejection is no response: the snapshot is given up.
/// Any other byte but `FAULT` is the length of a response, direction byte
/// counted in, whose payload must lie within the snapshot.
pub open spec fn frame_verdict(buf: Seq<u8>, i: int) -> Option<Result<Seq<u8>, Error>> {
    let start = i + PAYLOAD_OFFSET;
    if buf[i] == ACK || buf[i] == NACK {
        None
    } else if buf[i] == FAULT {
        Some(Err(fault(buf, i)))
    } else if start + buf[i] - 1 <= buf.len() {
        Some(Ok(buf.subrange(start, start + buf[i] - 1)))
    } else {
        Some(Err(Error::DecodeError))
    }
}

/// What a snapshot says to one who waits for a response: `None` where no
/// start marker is followed by a byte or the first one is followed by an
/// acknowledgement or a rejection, else the payload or the failure that the
/// byte behind the first marker leads to.
pub open spec fn spec_scan_frame(buf: Seq<u8>) -> Option<Result<Seq<u8>, Error>> {
    let i = first_verdict(buf, 0);
    if i < buf.len() {
        frame_verdict(buf, i)
    } else {
        None
    }
}

/// The result of a frame scan with the payload as a sequence.
pub open spec fn frame_scan_view(r: Option<Result<Vec<u8>, Error>>) -> Option<
    Result<Seq<u8>, Error>,
> {
    match r {
        None => None,
        Some(Ok(payload)) => Some(Ok(payload@)),
        Some(Err(e)) => Some(Err(e)),
    }
}

/// Whether `noise` holds no start marker, not even at its very end.
pub open spec fn markerless(noise: Seq<u8>) -> bool {
    forall|i: int| 2 <= i <= noise.len() ==> !marker_before(noise, i)
}

/// What was framed is what the frame scanner finds: a snapshot that holds the
/// frame around a payload, behind any bytes without a start marker and in
/// front of any bytes at all, scans to that payload. The payload may hold
/// what it likes, start markers too, but it may not be empty: the frame of an
/// empty payload has the length 1, which reads as a `FAULT`.
pub proof fn lemma_scan_frame_of_encode(noise: Seq<u8>, payload: Seq<u8>, tail: Seq<u8>)
    requires
        markerless(noise),
        1 <= payload.len() < PAYLOAD_LIMIT,
    ensures
        spec_scan_frame(noise + spec_encode(payload) + tail) == Some(Ok::<Seq<u8>, Error>(payload)),
{
    let frame = spec_encode(payload);
    let buf = noise + frame + tail;
    let n = noise.len() as int;
    let at = n + LENGTH_AT;
    assert(buf[at - 2] == PREAMBLE && buf[at - 1] == START);
    assert(buf[at - 3] != START);
    assert(buf[at] == payload.len() + 1);
    assert forall|j: int| 0 <= j < at implies !marker_before(buf, j) by {
        if 2 <= j <= n {
            assert(!marker_before(noise, j));
            assert(buf[j - 2] == noise[j - 2] && buf[j - 1] == noise[j - 1]);
        }
    }
    lemma_first_verdict_unique(buf, 0, at);
    assert(at + PAYLOAD_OFFSET == n + PAYLOAD_AT);
    assert(buf.subrange(n + PAYLOAD_AT, n + PAYLOAD_AT + payload.len()) =~= payload);
}

/// The fault behind a `FAULT` byte at `i`.
fn read_fault(buf: &[u8], i: usize) -> (e: Error)
    requires
        i < buf@.len(),
    ensures
        e == fault(buf@, i as int),
{
    if buf.len() - i > FAULT_CODE_OFFSET {
        Error::ApplicationError(buf[i + FAULT_CODE_OFFSET])
    } else {
        Error::DecodeError
    }
}

/// Walks the automaton over `buf` and returns the index of the first byte
/// that follows a start marker, or the length of `buf`.
pub fn find_verdict(buf: &[u8]) -> (i: usize)
    ensures
        i == first_verdict(buf@, 0),
{
    let mut state = ScanState::Idle;
    let mut i: usize = 0;
    while i < buf.len()
        invariant
            i <= buf@.len(),
            state == state_after(buf@, i as int),
            forall|j: int| 0 <= j < i ==> !marker_before(buf@, j),
        decreases buf@.len() - i,
    {
        proof {
            lemma_state_after(buf@, i as int);
        }
        match state {
            ScanState::SawStart => {
                proof {
                    lemma_first_verdict_unique(buf@, 0, i as int);
                }
                return i;
            },
            _ => {
                state = state.next(buf[i]);
                i = i + 1;
            },
        }
    }
    proof {
        lemma_first_verdict_unique(buf@, 0, i as int);
    }
    i
}

/// Scans a snapshot for the chip's word on the frame just written.
pub fn scan_ack(buf: &[u8]) -> (r: Option<Result<(), Error>>)
    ensures
        r == spec_scan_ack(buf@),
{
    let i: usize = find_verdict(buf);
    if i >= buf.len() {
        return None;
    }
    let byte: u8 = buf[i];
    if byte == ACK {
        Some(Ok(()))
    } else if byte == NACK {
        Some(Err(Error::Nack))
    } else if byte == FAULT {
        Some(Err(read_fault(buf, i)))
    } else {
        Some(Err(Error::OutOfOrder))
    }
}

/// Scans a snapshot for a response and cuts out its payload.
pub fn scan_frame(buf: &[u8]) -> (r: Option<Result<Vec<u8>, Error>>)
    ensures
        frame_scan_view(r) == spec_scan_frame(buf@),
{
    let i: usize = find_verdict(buf);
    if i >= buf.len() {
        return None;
    }
    let byte: u8 = buf[i];
    if byte == ACK || byte == NACK {
        None
    } else if byte == FAULT {
        Some(Err(read_fault(buf, i)))
    } else {
        let payload_len: usize = byte as usize - 1;
        if buf.len() - i > PAYLOAD_OFFSET && buf.len() - i - PAYLOAD_OFFSET >= payload_len {
            let start: usize = i + PAYLOAD_OFFSET;
            Some(Ok(slice_to_vec(slice_subrange(buf, start, start + payload_len))))
        } else {
            Some(Err(Error::DecodeError))
        }
    }
}

} // verus!
