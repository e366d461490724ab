//! Readers for the payloads that the chip sends back.
//!
//! A payload is what the frame scanner cut out of a response frame: the byte
//! that echoes the command, then the data of the answer.

use crate::error::Error;
use vstd::prelude::*;
use vstd::slice::slice_subrange;
use vstd::slice::slice_to_vec;

verus! {

/// The shortest payload that can hold a firmware identity, and the shortest
/// that can hold a tag.
pub const MIN_PAYLOAD_LEN: usize = 5;

/// Bytes that stand in front of the UID length in every entry of a tag list:
/// the target number, two bytes of SENS_RES and one of SEL_RES.
pub const ENTRY_HEADER_LEN: usize = 4;

/// The one value of the byte behind a UID that is never the length of a
/// trailing field: it is the number of the second target.
pub const NO_TRAILER: u8 = 2;

/// The firmware identity in `payload`: IC version, firmware version, firmware
/// revision and feature bits, in this order.
pub open spec fn spec_firmware_version(payload: Seq<u8>) -> Result<(u8, u8, u8, u8), Error> {
    if payload.len() >= MIN_PAYLOAD_LEN {
        Ok((payload[1], payload[2], payload[3], payload[4]))
    } else {
        Err(Error::DecodeError)
    }
}

/// Reads the firmware identity from the payload of the answer to a firmware
/// query. The first byte echoes the command and is passed over.
pub fn firmware_version(payload: &[u8]) -> (r: Result<(u8, u8, u8, u8), Error>)
    ensures
        r == spec_firmware_version(payload@),
{
    if payload.len() < MIN_PAYLOAD_LEN {
        Err(Error::DecodeError)
    } else {
        Ok((payload[1], payload[2], payload[3], payload[4]))
    }
}

/// The bounds of the UID of the entry that starts at `at`, as the index of
/// its first byte and the index behind its last. `None` where the header, the
/// length byte or the UID itself does not lie within `payload`, or where no
/// byte follows the length byte.
pub open spec fn entry_uid(payload: Seq<u8>, at: int) -> Option<(int, int)> {
    let start = at + ENTRY_HEADER_LEN + 1;
    if 0 <= at && start < payload.len() && start + payload[start - 1] <= payload.len() {
        Some((start, start + payload[start - 1]))
    } else {
        None
    }
}

/// Where the next entry starts, given that the UID of this one ends before
/// `uid_end`. The byte at `uid_end`, if there is one, is taken for the length
/// of a trailing field, itself counted in, unless it is `NO_TRAILER`.
pub open spec fn after_entry(payload: Seq<u8>, uid_end: int) -> int {
    if 0 <= uid_end < payload.len() && payload[uid_end] != NO_TRAILER {
        uid_end + payload[uid_end]
    } else {
        uid_end
    }
}

/// The UIDs of `count` entries, the first of which starts at `at`. `None` as
/// soon as one of them does not fit.
pub open spec fn entries(payload: Seq<u8>, at: int, count: nat) -> Option<Seq<Seq<u8>>>
    decreases count,
{
    if count == 0 {
        Some(Seq::empty())
    } else {
        match entry_uid(payload, at) {
            None => None,
            Some((start, end)) => match entries(
                payload,
                after_entry(payload, end),
                (count - 1) as nat,
            ) {
                None => None,
                Some(rest) => Some(seq![payload.subrange(start, end)] + rest),
            },
        }
    }
}

/// The UIDs that a tag-list payload announces, in the order of the entries.
/// The second byte counts the entries, which start at the third. A payload
/// too short for a tag, or one in which an entry does not fit, holds no tag.
pub open spec fn spec_tag_list(payload: Seq<u8>) -> Seq<Seq<u8>> {
    if payload.len() < MIN_PAYLOAD_LEN {
        Seq::empty()
    } else {
        match entries(payload, 2, payload[1] as nat) {
            Some(uids) => uids,
            None => Seq::empty(),
        }
    }
}

/// An entry takes more than five bytes: where no more are left, only a run
/// of no entries fits.
pub proof fn lemma_no_entry_past_end(payload: Seq<u8>, at: int, count: nat)
    requires
        at + ENTRY_HEADER_LEN + 1 >= payload.len(),
    ensures
        entries(payload, at, count) == if count == 0 {
            Some(Seq::<Seq<u8>>::empty())
        } else {
            None
        },
{
}

/// A run of entries that fits yields one UID for each entry.
pub proof fn lemma_entries_len(payload: Seq<u8>, at: int, count: nat)
    ensures
        entries(payload, at, count) matches Some(uids) ==> uids.len() == count,
    decreases count,
{
    if count > 0 {
        if let Some((_, end)) = entry_uid(payload, at) {
            lemma_entries_len(payload, after_entry(payload, end), (count - 1) as nat);
        }
    }
}

/// A tag list is all or nothing: it holds as many UIDs as the payload
/// announces, or none at all.
pub proof fn lemma_tag_list_all_or_nothing(payload: Seq<u8>)
    ensures
        spec_tag_list(payload).len() == 0 || (payload.len() >= MIN_PAYLOAD_LEN && spec_tag_list(
            payload,
        ).len() == payload[1]),
{
    if payload.len() >= MIN_PAYLOAD_LEN {
        lemma_entries_len(payload, 2, payload[1] as nat);
    }
}

/// Every UID of a tag list is a stretch of the payload, at most 255 bytes long.
pub proof fn lemma_entries_are_subranges(payload: Seq<u8>, at: int, count: nat, k: int)
    requires
        entries(payload, at, count) is Some,
        0 <= k < count,
    ensures
        k < entries(payload, at, count).unwrap().len(),
        exists|start: int, end: int|
            0 <= start <= end <= payload.len() && end - start <= u8::MAX
                && entries(payload, at, count).unwrap()[k] == #[trigger] payload.subrange(
                start,
                end,
            ),
    decreases count,
{
    lemma_entries_len(payload, at, count);
    let (start, end) = entry_uid(payload, at).unwrap();
    let rest = entries(payload, after_entry(payload, end), (count - 1) as nat).unwrap();
    if k == 0 {
        assert(entries(payload, at, count).unwrap()[0] == payload.subrange(start, end));
    } else {
        lemma_entries_are_subranges(payload, after_entry(payload, end), (count - 1) as nat, k - 1);
        assert(entries(payload, at, count).unwrap()[k] == rest[k - 1]);
    }
}

/// The empty list of tags.
fn no_tags() -> (tags: Vec<Vec<u8>>)
    ensures
        tags.deep_view() == Seq::<Seq<u8>>::empty(),
{
    let tags: Vec<Vec<u8>> = Vec::new();
    assert(tags.deep_view() =~= Seq::<Seq<u8>>::empty());
    tags
}

/// Reads the UIDs of the tags from the payload of the answer to a listing of
/// passive targets. A payload that is cut short or malformed gives no tags
/// rather than some of them.
pub fn tag_list(payload: &[u8]) -> (tags: Vec<Vec<u8>>)
    ensures
        tags.deep_view() == spec_tag_list(payload@),
        tags@.len() == 0 || (payload@.len() >= MIN_PAYLOAD_LEN && tags@.len() == payload@[1]),
{
    let tags = read_tag_list(payload);
    proof {
        lemma_tag_list_all_or_nothing(payload@);
        assert(tags.deep_view().len() == tags@.len());
    }
    tags
}

/// Walks the entries of a tag list and gathers their UIDs.
fn read_tag_list(payload: &[u8]) -> (tags: Vec<Vec<u8>>)
    ensures
        tags.deep_view() == spec_tag_list(payload@),
{
    let len: usize = payload.len();
    let mut tags: Vec<Vec<u8>> = no_tags();
    if len < MIN_PAYLOAD_LEN {
        return tags;
    }
    let count: u8 = payload[1];
    let mut at: usize = 2;
    let mut done: u8 = 0;
    while done < count
        invariant
            len == payload@.len(),
            len >= MIN_PAYLOAD_LEN,
            count == payload@[1],
            done <= count,
            at <= len,
            entries(payload@, 2, count as nat) == match entries(
                payload@,
                at as int,
                (count - done) as nat,
            ) {
                None => None::<Seq<Seq<u8>>>,
                Some(rest) => Some(tags.deep_view() + rest),
            },
        decreases count - done,
    {
        if len - at <= ENTRY_HEADER_LEN + 1 {
            return no_tags();
        }
        let start: usize = at + ENTRY_HEADER_LEN + 1;
        let uid_len: usize = payload[start - 1] as usize;
        if len - start < uid_len {
            return no_tags();
        }
        let end: usize = start + uid_len;
        let uid: Vec<u8> = slice_to_vec(slice_subrange(payload, start, end));
        let ghost before = tags.deep_view();
        tags.push(uid);
        let mut next: usize = end;
        if end < len {
            let trailer: u8 = payload[end];
            if trailer != NO_TRAILER {
                if trailer as usize <= len - end {
                    next = end + trailer as usize;
                } else {
                    next = len;
                }
            }
        }
        proof {
            let remaining = (count - done - 1) as nat;
            assert(entry_uid(payload@, at as int) == Some((start as int, end as int)));
            assert(tags.deep_view() =~~= before + seq![payload@.subrange(start as int, end as int)]);
            let ideal = after_entry(payload@, end as int);
            if ideal != next {
                lemma_no_entry_past_end(payload@, ideal, remaining);
                lemma_no_entry_past_end(payload@, next as int, remaining);
            }
            assert(entries(payload@, ideal, remaining) == entries(payload@, next as int, remaining));
            match entries(payload@, next as int, remaining) {
                None => {},
                Some(rest) => {
                    assert(before + (seq![payload@.subrange(start as int, end as int)] + rest)
                        =~= tags.deep_view() + rest);
                },
            }
        }
        at = next;
        done = done + 1;
    }
    proof {
        assert(tags.deep_view() + Seq::<Seq<u8>>::empty() =~= tags.deep_view());
    }
    tags
}

} // verus!
