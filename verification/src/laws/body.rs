//! Notifications of streamed bodies.

use crate::http_client::body_stream::{
    chunk_deltas, last_delta, BodyDelta, HttpRequestBodyDeltaNotification, StreamState,
};
use vstd::prelude::*;

verus! {

/// A notification shows its fields.
pub proof fn notifications_show_their_fields(notification: HttpRequestBodyDeltaNotification)
    ensures
        notification@.request_id == notification.request_id@,
        notification@.seq == notification.seq,
        notification@.delta == notification.delta@,
        notification@.done == notification.done,
        notification.error is None <==> notification@.error is None,
        notification.error matches Some(error) ==> notification@.error == Some(error@),
{
}

/// A stream starts open, at number one, with nothing to send.
pub proof fn streams_start_at_one(request_id: Seq<char>, max: nat)
    ensures
        StreamState::fresh(request_id, max).request_id == request_id,
        StreamState::fresh(request_id, max).seq == 1,
        StreamState::fresh(request_id, max).max == max,
        StreamState::fresh(request_id, max).left.len() == 0,
        StreamState::fresh(request_id, max).open,
{
}

/// While a stream is open and bytes are left, the next piece carries the first of them: as many as
/// a notification may carry, or all that are left where they are fewer. It has the stream's number
/// and the request's name, and is not the last notification. Afterwards the other bytes are left,
/// in order, and the number is one higher.
pub proof fn pieces_are_as_large_as_they_may_be(stream: StreamState)
    requires
        stream.max > 0,
    ensures
        stream.has_piece() <==> stream.open && stream.left.len() > 0,
        stream.has_piece() ==> {
            let piece = stream.piece();
            let next = stream.after_piece();
            &&& piece.request_id == stream.request_id
            &&& piece.seq == stream.seq
            &&& !piece.done
            &&& piece.error is None
            &&& piece.delta + next.left == stream.left
            &&& piece.delta.len() <= stream.max
            &&& piece.delta.len() == stream.max || next.left.len() == 0
            &&& piece.delta.len() > 0
            &&& next.seq == stream.seq + 1
            &&& next.request_id == stream.request_id
            &&& next.max == stream.max
            &&& next.open == stream.open
        },
{
    if stream.has_piece() {
        assert(stream.piece().delta + stream.after_piece().left =~= stream.left);
    }
}

/// A chunk is what is left to send next, and changes nothing else. An accepted notification changes
/// nothing, a refused one closes the stream, and a closed stream stays closed. The next chunk may
/// come exactly where nothing is left or the stream is closed.
pub proof fn chunks_and_answers(stream: StreamState, bytes: Seq<u8>, accepted: bool)
    ensures
        stream.with_chunk(bytes).left == bytes,
        stream.with_chunk(bytes).seq == stream.seq,
        stream.with_chunk(bytes).request_id == stream.request_id,
        stream.with_chunk(bytes).max == stream.max,
        stream.with_chunk(bytes).open == stream.open,
        stream.answered(true) == stream,
        stream.answered(accepted).open == (stream.open && accepted),
        stream.answered(accepted).left == stream.left,
        stream.answered(accepted).seq == stream.seq,
        stream.answered(accepted).request_id == stream.request_id,
        stream.answered(accepted).max == stream.max,
        stream.awaits_chunk() <==> stream.left.len() == 0 || !stream.open,
{
}

/// The last notification carries no bytes, ends the stream, and tells the error, if there was one.
pub proof fn last_notifications_end_the_stream(
    request_id: Seq<char>,
    seq: nat,
    error: Option<Seq<char>>,
)
    ensures
        last_delta(request_id, seq, error).request_id == request_id,
        last_delta(request_id, seq, error).seq == seq,
        last_delta(request_id, seq, error).delta.len() == 0,
        last_delta(request_id, seq, error).done,
        last_delta(request_id, seq, error).error == error,
{
}

/// All notifications of a chunk but the last are full: no chunk is cut into smaller pieces than it
/// must be.
pub proof fn chunks_are_cut_into_full_pieces(
    request_id: Seq<char>,
    seq: nat,
    bytes: Seq<u8>,
    max: nat,
)
    requires
        max > 0,
    ensures
        ({
            let deltas: Seq<BodyDelta> = chunk_deltas(request_id, seq, bytes, max);
            &&& forall|i: int|
                0 <= i < deltas.len() - 1 ==> (#[trigger] deltas[i]).delta.len() == max
            &&& bytes.len() == 0 <==> deltas.len() == 0
        }),
    decreases bytes.len(),
{
    if bytes.len() > 0 {
        let deltas = chunk_deltas(request_id, seq, bytes, max);
        let count: int = if bytes.len() < max {
            bytes.len() as int
        } else {
            max as int
        };
        let rest = chunk_deltas(request_id, seq + 1, bytes.skip(count), max);
        chunks_are_cut_into_full_pieces(request_id, seq + 1, bytes.skip(count), max);
        assert(deltas.len() == rest.len() + 1);
        assert forall|i: int| 0 <= i < deltas.len() - 1 implies (
        #[trigger] deltas[i]).delta.len() == max by {
            if i > 0 {
                assert(deltas[i] == rest[i - 1]);
            }
        }
    }
}

} // verus!
