//! The command decoder: turns a payload into an ordered sequence of
//! `(key, value)` pairs.
//!
//! A payload is a list of segments separated by `&`. Within a segment the
//! first `=` separates the key from the value; a segment without `=` is a key
//! with an empty value. The empty payload holds no segment at all.

use vstd::prelude::*;
use vstd::utf8::{decode_utf8, encode_utf8, encode_utf8_decode_utf8, valid_utf8};
use crate::error::ServerError;
use crate::text::{
    after_marker, after_marker_spec, chars_of, find_char, first_index_of, lemma_first_index_of,
    trim, trim_spec,
};

verus! {

/// One decoded frame as the contracts see it: the pairs in payload order.
pub type FrameView = Seq<(Seq<char>, Seq<char>)>;

/// The view of a decoded frame.
pub open spec fn frame_view(frame: Seq<(String, String)>) -> FrameView {
    frame.map_values(|p: (String, String)| (p.0@, p.1@))
}

/// Key and value of one segment: split at the first `=`, which belongs to neither.
pub open spec fn split_pair(segment: Seq<char>) -> (Seq<char>, Seq<char>) {
    let at = first_index_of(segment, '=');
    if at < segment.len() {
        (segment.take(at), segment.skip(at + 1))
    } else {
        (segment, Seq::empty())
    }
}

/// The pairs of a payload that holds at least one segment.
pub open spec fn decode_segments(payload: Seq<char>) -> FrameView
    decreases payload.len(),
{
    let at = first_index_of(payload, '&');
    if 0 <= at < payload.len() {
        seq![split_pair(payload.take(at))] + decode_segments(payload.skip(at + 1))
    } else {
        seq![split_pair(payload)]
    }
}

/// The pairs of a payload, left to right; duplicates are kept.
pub open spec fn decode_spec(payload: Seq<char>) -> FrameView {
    if payload.len() == 0 {
        Seq::empty()
    } else {
        decode_segments(payload)
    }
}

/// Decodes a payload into its `(key, value)` pairs, in payload order.
pub fn decode(payload: &str) -> (frame: Vec<(String, String)>)
    ensures
        frame_view(frame@) == decode_spec(payload@),
{
    let mut frame: Vec<(String, String)> = Vec::new();
    let chars = chars_of(payload);
    let n: usize = chars.len();
    if n == 0 {
        assert(frame_view(frame@) =~= Seq::empty());
        return frame;
    }
    let mut pos: usize = 0;
    let mut finished = false;
    assert(frame_view(frame@) + decode_segments(payload@.skip(0)) =~= decode_segments(payload@))
        by {
        assert(payload@.skip(0) =~= payload@);
    }
    while !finished
        invariant
            chars@ == payload@,
            n == chars@.len(),
            pos <= n,
            !finished ==> decode_segments(payload@) == frame_view(frame@) + decode_segments(
                payload@.skip(pos as int),
            ),
            finished ==> decode_segments(payload@) == frame_view(frame@),
        decreases n - pos + (if finished { 0int } else { 1int }),
    {
        let amp = find_char(&chars, pos, n, '&');
        let eq = find_char(&chars, pos, amp, '=');
        let ghost rest = payload@.skip(pos as int);
        let ghost segment = payload@.subrange(pos as int, amp as int);
        proof {
            assert(rest =~= chars@.subrange(pos as int, n as int));
            assert(segment =~= rest.take(amp - pos));
            lemma_first_index_of(segment, '=');
        }
        let key = payload.substring_char(pos, eq).to_owned();
        let value = if eq < amp {
            payload.substring_char(eq + 1, amp).to_owned()
        } else {
            String::new()
        };
        proof {
            assert(key@ =~= split_pair(segment).0);
            assert(value@ =~= split_pair(segment).1);
        }
        let ghost before = frame_view(frame@);
        frame.push((key, value));
        assert(frame_view(frame@) =~= before.push(split_pair(segment)));
        if amp < n {
            proof {
                assert(rest.skip(amp - pos + 1) =~= payload@.skip(amp as int + 1));
                assert(frame_view(frame@) + decode_segments(payload@.skip(amp as int + 1))
                    =~= before + decode_segments(rest));
            }
            pos = amp + 1;
        } else {
            proof {
                assert(rest.take(amp - pos) =~= rest);
                assert(frame_view(frame@) =~= before + decode_segments(rest));
            }
            finished = true;
        }
    }
    frame
}

/// One pair written back as a segment: key, `=`, value.
pub open spec fn join_pair(pair: (Seq<char>, Seq<char>)) -> Seq<char> {
    pair.0 + seq!['='] + pair.1
}

/// A frame written back as a payload: its pairs as segments, with `&` between them.
pub open spec fn join_spec(frame: FrameView) -> Seq<char>
    decreases frame.len(),
{
    if frame.len() == 0 {
        Seq::empty()
    } else if frame.len() == 1 {
        join_pair(frame[0])
    } else {
        join_pair(frame[0]) + seq!['&'] + join_spec(frame.drop_first())
    }
}

/// Every segment of the payload holds a `=`.
pub open spec fn all_segments_keyed(payload: Seq<char>) -> bool
    decreases payload.len(),
{
    let at = first_index_of(payload, '&');
    if 0 <= at < payload.len() {
        first_index_of(payload.take(at), '=') < at && all_segments_keyed(payload.skip(at + 1))
    } else {
        first_index_of(payload, '=') < payload.len()
    }
}

/// A payload is well formed if it is empty or each of its segments has the shape `key=value`.
pub open spec fn well_formed(payload: Seq<char>) -> bool {
    payload.len() == 0 || all_segments_keyed(payload)
}

/// A payload with at least one segment decodes to at least one pair.
proof fn lemma_decode_segments_nonempty(payload: Seq<char>)
    ensures
        decode_segments(payload).len() >= 1,
    decreases payload.len(),
{
    let at = first_index_of(payload, '&');
    if 0 <= at < payload.len() {
        lemma_decode_segments_nonempty(payload.skip(at + 1));
    }
}

/// A segment that holds a `=` is its own pair written back.
proof fn lemma_join_split(segment: Seq<char>)
    requires
        first_index_of(segment, '=') < segment.len(),
    ensures
        join_pair(split_pair(segment)) == segment,
{
    lemma_first_index_of(segment, '=');
    let at = first_index_of(segment, '=');
    assert(segment.take(at) + seq!['='] + segment.skip(at + 1) =~= segment);
}

/// A payload whose segments all hold a `=` is its own pairs written back.
proof fn lemma_join_decode_segments(payload: Seq<char>)
    requires
        all_segments_keyed(payload),
    ensures
        join_spec(decode_segments(payload)) == payload,
    decreases payload.len(),
{
    lemma_first_index_of(payload, '&');
    let at = first_index_of(payload, '&');
    if 0 <= at < payload.len() {
        let head = payload.take(at);
        let tail = payload.skip(at + 1);
        lemma_join_split(head);
        lemma_join_decode_segments(tail);
        lemma_decode_segments_nonempty(tail);
        let frame = decode_segments(payload);
        assert(frame.drop_first() =~= decode_segments(tail));
        assert(head + seq!['&'] + tail =~= payload);
    } else {
        lemma_join_split(payload);
    }
}

/// Decoding a well-formed payload and writing the pairs back, in order, with
/// `=` inside each pair and `&` between the pairs, gives the payload again.
pub proof fn lemma_decode_then_join(payload: Seq<char>)
    requires
        well_formed(payload),
    ensures
        join_spec(decode_spec(payload)) == payload,
{
    if payload.len() > 0 {
        lemma_join_decode_segments(payload);
    } else {
        assert(payload =~= Seq::empty());
    }
}

/// Writes a frame back as a payload.
pub fn encode(frame: &Vec<(String, String)>) -> (payload: String)
    ensures
        payload@ == join_spec(frame_view(frame@)),
{
    let mut payload = String::new();
    let n: usize = frame.len();
    let mut i: usize = n;
    while i > 0
        invariant
            n == frame@.len(),
            i <= n,
            payload@ == join_spec(frame_view(frame@).skip(i as int)),
        decreases i,
    {
        i -= 1;
        let ghost rest = frame_view(frame@).skip(i as int);
        let mut segment = frame[i].0.clone();
        segment.append("=");
        segment.append(frame[i].1.as_str());
        proof {
            reveal_strlit("=");
            reveal_strlit("&");
            assert("="@ =~= seq!['=']);
            assert("&"@ =~= seq!['&']);
            assert(rest[0] == (frame@[i as int].0@, frame@[i as int].1@));
            assert(rest.drop_first() =~= frame_view(frame@).skip(i as int + 1));
            assert(segment@ =~= join_pair(rest[0]));
        }
        if i + 1 < n {
            segment.append("&");
            segment.append(payload.as_str());
        }
        payload = segment;
    }
    assert(frame_view(frame@).skip(0) =~= frame_view(frame@));
    payload
}

/// Calls `String::from_utf8`. Trusted: the call succeeds exactly on valid
/// UTF-8, and the string it gives then encodes to the bytes it was made from.
#[verifier::external_body]
fn string_from_utf8(bytes: Vec<u8>) -> (text: Option<String>)
    ensures
        text is Some <==> valid_utf8(bytes@),
        text is Some ==> encode_utf8(text->0@) == bytes@,
{
    match String::from_utf8(bytes) {
        Ok(s) => Some(s),
        Err(_) => None,
    }
}

/// The text that `bytes` encode; `None` where they are not valid UTF-8.
pub open spec fn text_spec(bytes: Seq<u8>) -> Option<Seq<char>> {
    if valid_utf8(bytes) {
        Some(decode_utf8(bytes))
    } else {
        None
    }
}

/// Reads `bytes` as UTF-8 text.
pub fn text_of(bytes: Vec<u8>) -> (text: Result<String, ServerError>)
    ensures
        match text {
            Ok(s) => text_spec(bytes@) == Some(s@),
            Err(e) => e == ServerError::Decode && text_spec(bytes@) is None,
        },
{
    match string_from_utf8(bytes) {
        Some(s) => {
            proof {
                encode_utf8_decode_utf8(s@);
            }
            Ok(s)
        },
        None => Err(ServerError::Decode),
    }
}

/// The frame that a publish payload carries: the whole text, trimmed, is the command string.
pub open spec fn payload_frame_spec(bytes: Seq<u8>) -> Result<FrameView, ServerError> {
    match text_spec(bytes) {
        Some(text) => Ok(decode_spec(trim_spec(text))),
        None => Err(ServerError::Decode),
    }
}

/// The frame that a chunk read from a stream carries: the command string is
/// what follows the first `msg=` in the trimmed text, trimmed again. A chunk
/// without the marker carries nothing.
pub open spec fn chunk_frame_spec(bytes: Seq<u8>) -> Result<FrameView, ServerError> {
    match text_spec(bytes) {
        Some(text) => match after_marker_spec(trim_spec(text)) {
            Some(message) => Ok(decode_spec(trim_spec(message))),
            None => Ok(Seq::empty()),
        },
        None => Err(ServerError::Decode),
    }
}

/// Decodes a publish payload. Fails exactly when the payload is not valid UTF-8.
pub fn decode_payload(bytes: Vec<u8>) -> (frame: Result<Vec<(String, String)>, ServerError>)
    ensures
        match frame {
            Ok(f) => payload_frame_spec(bytes@) == Ok::<FrameView, ServerError>(frame_view(f@)),
            Err(e) => payload_frame_spec(bytes@) == Err::<FrameView, ServerError>(e),
        },
{
    match text_of(bytes) {
        Ok(text) => Ok(decode(trim(text.as_str()))),
        Err(e) => Err(e),
    }
}

/// Decodes a chunk read from a stream. Fails exactly when the chunk is not
/// valid UTF-8; a chunk without the marker gives the empty frame.
pub fn decode_chunk(bytes: Vec<u8>) -> (frame: Result<Vec<(String, String)>, ServerError>)
    ensures
        match frame {
            Ok(f) => chunk_frame_spec(bytes@) == Ok::<FrameView, ServerError>(frame_view(f@)),
            Err(e) => chunk_frame_spec(bytes@) == Err::<FrameView, ServerError>(e),
        },
{
    match text_of(bytes) {
        Ok(text) => match after_marker(trim(text.as_str())) {
            Some(message) => Ok(decode(trim(message))),
            None => {
                let frame: Vec<(String, String)> = Vec::new();
                assert(frame_view(frame@) =~= Seq::empty());
                Ok(frame)
            },
        },
        Err(e) => Err(e),
    }
}

} // verus!
