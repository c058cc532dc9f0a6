//! The envelope codec: canonical, self-describing binary serialization of
//! [`AccountCompressionEvent`] values.
//!
//! The wire format is the tag-plus-payload scheme shared with the rest of the
//! compression engine: each union variant is written as a one-byte, stable,
//! append-only discriminant followed by its payload fields in a fixed order,
//! and a variable-length byte field is preceded by its length as a
//! little-endian 32-bit prefix, so that decoding never depends on
//! end-of-stream sentinels. No compression and no checksum: transport
//! correctness is the receiver channel's job, not the codec's.

use vstd::prelude::*;

use crate::events::{
    AccountCompressionEvent, AccountCompressionEventView, ApplicationDataEvent,
    ApplicationDataEventView, ApplicationDataEventV1, EventError,
};

verus! {

/// Discriminant of the engine-owned change-log variant.
pub const TAG_CHANGE_LOG: u8 = 0;

/// Discriminant of the application-data variant.
pub const TAG_APPLICATION_DATA: u8 = 1;

/// Discriminant of the first application-data format version.
pub const TAG_VERSION_V1: u8 = 0;

/// The little-endian byte representation of a 32-bit length prefix.
pub open spec fn u32_le(n: u32) -> Seq<u8> {
    seq![
        (n % 256) as u8,
        ((n / 256) % 256) as u8,
        ((n / 65536) % 256) as u8,
        ((n / 16777216) % 256) as u8,
    ]
}

/// The value carried by four little-endian length-prefix bytes.
pub open spec fn u32_from_le(b0: u8, b1: u8, b2: u8, b3: u8) -> int {
    b0 + b1 * 256 + b2 * 65536 + b3 * 16777216
}

/// An event value can be represented in the envelope format unless its
/// variable-length payload outgrows the 32-bit length prefix. For well-formed
/// producer inputs this always holds.
pub open spec fn representable(e: AccountCompressionEventView) -> bool {
    match e {
        AccountCompressionEventView::ChangeLog(_) => true,
        AccountCompressionEventView::ApplicationData(a) => match a {
            ApplicationDataEventView::V1(p) => p.len() <= u32::MAX,
        },
    }
}

/// The one canonical encoding of an event value: its variant tag, then its
/// payload fields in fixed order.
pub open spec fn spec_encode(e: AccountCompressionEventView) -> Seq<u8>
    recommends
        representable(e),
{
    match e {
        AccountCompressionEventView::ChangeLog(bytes) => seq![TAG_CHANGE_LOG] + bytes,
        AccountCompressionEventView::ApplicationData(a) => match a {
            ApplicationDataEventView::V1(p) => seq![TAG_APPLICATION_DATA, TAG_VERSION_V1]
                + u32_le(p.len() as u32) + p,
        },
    }
}

/// Exactly the byte sequences that are the canonical encoding of some event
/// value: a known leading tag, and for application data the version tag and a
/// length prefix that accounts for every remaining byte.
pub open spec fn decodable(s: Seq<u8>) -> bool {
    &&& s.len() >= 1
    &&& {
        ||| s[0] == TAG_CHANGE_LOG
        ||| {
            &&& s[0] == TAG_APPLICATION_DATA
            &&& s.len() >= 6
            &&& s[1] == TAG_VERSION_V1
            &&& u32_from_le(s[2], s[3], s[4], s[5]) == s.len() - 6
        }
    }
}

/// The event value whose canonical encoding a decodable byte sequence is.
pub open spec fn spec_decode(s: Seq<u8>) -> AccountCompressionEventView
    recommends
        decodable(s),
{
    if s[0] == TAG_CHANGE_LOG {
        AccountCompressionEventView::ChangeLog(s.subrange(1, s.len() as int))
    } else {
        AccountCompressionEventView::ApplicationData(ApplicationDataEventView::V1(
            s.subrange(6, s.len() as int),
        ))
    }
}

/// A 32-bit value survives the round trip through its little-endian length
/// prefix bytes.
proof fn lemma_u32_le_round_trip(n: u32)
    ensures
        u32_from_le(u32_le(n)[0], u32_le(n)[1], u32_le(n)[2], u32_le(n)[3]) == n,
{
    assert(((n % 256) as u8) + (((n / 256) % 256) as u8) * 256 + (((n / 65536) % 256) as u8)
        * 65536 + (((n / 16777216) % 256) as u8) * 16777216 == n) by (bit_vector);
}

/// Round trip: every representable event value is reproduced, structurally
/// equal, by decoding its canonical encoding.
pub proof fn lemma_round_trip(e: AccountCompressionEventView)
    requires
        representable(e),
    ensures
        decodable(spec_encode(e)),
        spec_decode(spec_encode(e)) == e,
{
    let s = spec_encode(e);
    match e {
        AccountCompressionEventView::ChangeLog(bytes) => {
            assert(s.subrange(1, s.len() as int) =~= bytes);
        },
        AccountCompressionEventView::ApplicationData(a) => match a {
            ApplicationDataEventView::V1(p) => {
                let n: u32 = p.len() as u32;
                lemma_u32_le_round_trip(n);
                assert(s[2] == u32_le(n)[0] && s[3] == u32_le(n)[1] && s[4] == u32_le(n)[2]
                    && s[5] == u32_le(n)[3]);
                assert(s.subrange(6, s.len() as int) =~= p);
            },
        },
    }
}

/// Append-only tag space: the encoding of each existing variant is a fixed
/// function of that variant's own tag constants and payload alone, so adding
/// a new variant (under a fresh tag) to either union cannot change the
/// encoding of any value built from the variants below.
pub proof fn lemma_append_only_stability(bytes: Seq<u8>, p: Seq<u8>)
    requires
        p.len() <= u32::MAX,
    ensures
        spec_encode(AccountCompressionEventView::ChangeLog(bytes)) == seq![TAG_CHANGE_LOG] + bytes,
        spec_encode(AccountCompressionEventView::ApplicationData(ApplicationDataEventView::V1(p)))
            == seq![TAG_APPLICATION_DATA, TAG_VERSION_V1] + u32_le(p.len() as u32) + p,
{
}

/// Payload opacity: whatever bytes a caller wraps as application data come
/// back byte-identical from an encode/decode round trip.
pub proof fn lemma_payload_opacity(p: Seq<u8>)
    requires
        p.len() <= u32::MAX,
    ensures
        decodable(spec_encode(AccountCompressionEventView::ApplicationData(
            ApplicationDataEventView::V1(p),
        ))),
        spec_decode(spec_encode(AccountCompressionEventView::ApplicationData(
            ApplicationDataEventView::V1(p),
        ))) == AccountCompressionEventView::ApplicationData(ApplicationDataEventView::V1(p)),
{
    lemma_round_trip(AccountCompressionEventView::ApplicationData(ApplicationDataEventView::V1(p)));
}

/// Appends all of `src` to `out`, in order.
fn append_bytes(out: &mut Vec<u8>, src: &Vec<u8>)
    ensures
        final(out)@ == old(out)@ + src@,
{
    let mut i: usize = 0;
    while i < src.len()
        invariant
            i <= src.len(),
            out@ == old(out)@ + src@.subrange(0, i as int),
        decreases src.len() - i,
    {
        out.push(src[i]);
        proof {
            assert(old(out)@ + src@.subrange(0, i + 1 as int) =~= (old(out)@ + src@.subrange(
                0,
                i as int,
            )).push(src@[i as int]));
        }
        i = i + 1;
    }
    proof {
        assert(src@.subrange(0, src@.len() as int) =~= src@);
    }
}

/// Copies `bytes[start..end]` into a fresh vector.
fn copy_range(bytes: &Vec<u8>, start: usize, end: usize) -> (r: Vec<u8>)
    requires
        start <= end,
        end <= bytes.len(),
    ensures
        r@ == bytes@.subrange(start as int, end as int),
{
    let mut out: Vec<u8> = Vec::new();
    let mut i: usize = start;
    while i < end
        invariant
            start <= i <= end,
            end <= bytes.len(),
            out@ == bytes@.subrange(start as int, i as int),
        decreases end - i,
    {
        out.push(bytes[i]);
        proof {
            assert(bytes@.subrange(start as int, i + 1 as int) =~= bytes@.subrange(
                start as int,
                i as int,
            ).push(bytes@[i as int]));
        }
        i = i + 1;
    }
    out
}

/// Encodes an event value into its canonical envelope bytes.
///
/// Fails exactly when the value cannot be represented in the envelope format
/// (an application payload longer than the 32-bit length prefix can count),
/// which must not occur for well-formed producer inputs.
pub fn encode_event(event: &AccountCompressionEvent) -> (r: Result<Vec<u8>, EventError>)
    ensures
        r is Ok <==> representable(event@),
        r matches Ok(bytes) ==> bytes@ == spec_encode(event@),
        r matches Err(e) ==> e == EventError::SerializationFailure,
{
    match event {
        AccountCompressionEvent::ChangeLog(bytes) => {
            let mut out: Vec<u8> = Vec::new();
            out.push(TAG_CHANGE_LOG);
            append_bytes(&mut out, bytes);
            proof {
                assert(out@ =~= spec_encode(event@));
            }
            Ok(out)
        },
        AccountCompressionEvent::ApplicationData(ApplicationDataEvent::V1(v)) => {
            if v.application_data.len() > u32::MAX as usize {
                return Err(EventError::SerializationFailure);
            }
            let n: u32 = v.application_data.len() as u32;
            let mut out: Vec<u8> = Vec::new();
            out.push(TAG_APPLICATION_DATA);
            out.push(TAG_VERSION_V1);
            out.push((n % 256) as u8);
            out.push(((n / 256) % 256) as u8);
            out.push(((n / 65536) % 256) as u8);
            out.push(((n / 16777216) % 256) as u8);
            append_bytes(&mut out, &v.application_data);
            proof {
                assert(out@ =~= spec_encode(event@));
            }
            Ok(out)
        },
    }
}

/// Decodes canonical envelope bytes back into the event value they encode.
///
/// Returns a value exactly when the input is the canonical encoding of one,
/// and then returns that one.
pub fn decode_event(bytes: &Vec<u8>) -> (r: Option<AccountCompressionEvent>)
    ensures
        r is Some <==> decodable(bytes@),
        r matches Some(event) ==> event@ == spec_decode(bytes@),
{
    if bytes.len() == 0 {
        return None;
    }
    let tag: u8 = bytes[0];
    if tag == TAG_CHANGE_LOG {
        let payload = copy_range(bytes, 1, bytes.len());
        Some(AccountCompressionEvent::ChangeLog(payload))
    } else if tag == TAG_APPLICATION_DATA {
        if bytes.len() < 6 {
            return None;
        }
        if bytes[1] != TAG_VERSION_V1 {
            return None;
        }
        let n: u32 = (bytes[2] as u32) + (bytes[3] as u32) * 256 + (bytes[4] as u32) * 65536 + (
        bytes[5] as u32) * 16777216;
        if (n as usize) != bytes.len() - 6 {
            return None;
        }
        let payload = copy_range(bytes, 6, bytes.len());
        Some(AccountCompressionEvent::ApplicationData(ApplicationDataEvent::V1(
            ApplicationDataEventV1 { application_data: payload },
        )))
    } else {
        None
    }
}

} // verus!
