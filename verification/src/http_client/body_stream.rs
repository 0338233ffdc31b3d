//! Forwarding of a response body in numbered notifications of bounded size.

use crate::http_client::request::PendingReqwestHttpBodyStream;
use crate::text::optional_text;
use vstd::prelude::*;

verus! {

/// One notification of a streamed response body.
#[derive(Clone, Debug, PartialEq, Eq)]
pub struct HttpRequestBodyDeltaNotification {
    pub request_id: String,
    /// The place of the notification in its stream, from one.
    pub seq: u64,
    pub delta: Vec<u8>,
    /// Whether this is the last notification.
    pub done: bool,
    /// Why the body could not be read to its end.
    pub error: Option<String>,
}

/// The contents of a notification.
pub struct BodyDelta {
    pub request_id: Seq<char>,
    pub seq: nat,
    pub delta: Seq<u8>,
    pub done: bool,
    pub error: Option<Seq<char>>,
}

impl View for HttpRequestBodyDeltaNotification {
    type V = BodyDelta;

    open spec fn view(&self) -> BodyDelta {
        BodyDelta {
            request_id: self.request_id@,
            seq: self.seq as nat,
            delta: self.delta@,
            done: self.done,
            error: optional_text(self.error),
        }
    }
}

/// The contents of several notifications.
pub open spec fn delta_views(notifications: Seq<HttpRequestBodyDeltaNotification>) -> Seq<
    BodyDelta,
> {
    notifications.map_values(|notification: HttpRequestBodyDeltaNotification| notification@)
}

/// The notifications for one chunk of a body: its bytes in pieces of `max` bytes, the last one
/// with what is left, numbered from `seq`.
pub open spec fn chunk_deltas(
    request_id: Seq<char>,
    seq: nat,
    bytes: Seq<u8>,
    max: nat,
) -> Seq<BodyDelta>
    decreases bytes.len(),
{
    if bytes.len() == 0 || max == 0 {
        Seq::empty()
    } else {
        let count: int = if bytes.len() < max {
            bytes.len() as int
        } else {
            max as int
        };
        seq![BodyDelta { request_id, seq, delta: bytes.take(count), done: false, error: None }]
            + chunk_deltas(request_id, seq + 1, bytes.skip(count), max)
    }
}

/// The last notification of a stream.
pub open spec fn last_delta(request_id: Seq<char>, seq: nat, error: Option<Seq<char>>) -> BodyDelta {
    BodyDelta { request_id, seq, delta: Seq::empty(), done: true, error }
}

/// A response body on its way into notifications.
pub struct BodyDeltaStream {
    request_id: String,
    seq: u64,
    max_delta_bytes: usize,
    chunk: Vec<u8>,
    at: usize,
    open: bool,
}

/// The state of a stream.
#[verifier::ext_equal]
pub struct StreamState {
    pub request_id: Seq<char>,
    /// The number of the next notification.
    pub seq: nat,
    /// The number of bytes that a notification may carry.
    pub max: nat,
    /// What is left of the chunk under way.
    pub left: Seq<u8>,
    /// No notification was refused.
    pub open: bool,
}

impl View for BodyDeltaStream {
    type V = StreamState;

    closed spec fn view(&self) -> StreamState {
        StreamState {
            request_id: self.request_id@,
            seq: self.seq as nat,
            max: self.max_delta_bytes as nat,
            left: self.chunk@.skip(self.at as int),
            open: self.open,
        }
    }
}

impl StreamState {
    /// A stream that has sent nothing.
    pub open spec fn fresh(request_id: Seq<char>, max: nat) -> StreamState {
        StreamState { request_id, seq: 1, max, left: Seq::empty(), open: true }
    }

    /// A piece of the chunk under way is to be sent.
    pub open spec fn has_piece(self) -> bool {
        self.open && self.left.len() > 0 && self.max > 0
    }

    /// The size of that piece.
    pub open spec fn piece_len(self) -> int {
        if self.left.len() < self.max {
            self.left.len() as int
        } else {
            self.max as int
        }
    }

    /// That piece.
    pub open spec fn piece(self) -> BodyDelta {
        BodyDelta {
            request_id: self.request_id,
            seq: self.seq,
            delta: self.left.take(self.piece_len()),
            done: false,
            error: None,
        }
    }

    /// After that piece was handed out.
    pub open spec fn after_piece(self) -> StreamState {
        StreamState { seq: self.seq + 1, left: self.left.skip(self.piece_len()), ..self }
    }

    /// After the next chunk came.
    pub open spec fn with_chunk(self, bytes: Seq<u8>) -> StreamState {
        StreamState { left: bytes, ..self }
    }

    /// After a notification was accepted, or refused, which ends the stream.
    pub open spec fn answered(self, accepted: bool) -> StreamState {
        StreamState { open: self.open && accepted, ..self }
    }

    /// The next chunk, or the end, may come: every piece of the one before was handed out, or the
    /// stream is over.
    pub open spec fn awaits_chunk(self) -> bool {
        self.left.len() == 0 || !self.open
    }
}

fn copy_range(bytes: &Vec<u8>, from: usize, to: usize) -> (range: Vec<u8>)
    requires
        from <= to <= bytes@.len(),
    ensures
        range@ == bytes@.subrange(from as int, to as int),
{
    let mut range: Vec<u8> = Vec::new();
    let mut i: usize = from;
    while i < to
        invariant
            from <= i <= to <= bytes@.len(),
            range@ == bytes@.subrange(from as int, i as int),
        decreases to - i,
    {
        range.push(bytes[i]);
        assert(bytes@.subrange(from as int, i + 1) == bytes@.subrange(from as int, i as int).push(
            bytes@[i as int],
        ));
        i += 1;
    }
    range
}

impl BodyDeltaStream {
    #[verifier::type_invariant]
    spec fn is_valid(self) -> bool {
        self.at <= self.chunk@.len() && self.max_delta_bytes > 0
    }

    /// Starts the stream of a pending body.
    pub fn new(pending: PendingReqwestHttpBodyStream, max_delta_bytes: usize) -> (stream: Self)
        requires
            max_delta_bytes > 0,
        ensures
            stream@ == StreamState::fresh(pending.request_id@, max_delta_bytes as nat),
    {
        BodyDeltaStream {
            request_id: pending.request_id,
            seq: 1,
            max_delta_bytes,
            chunk: Vec::new(),
            at: 0,
            open: true,
        }
    }

    /// The number of the next notification.
    pub fn seq(&self) -> (seq: u64)
        ensures
            seq == self@.seq,
    {
        self.seq
    }

    /// Takes the next chunk of the body.
    pub fn chunk(&mut self, bytes: Vec<u8>)
        requires
            old(self)@.awaits_chunk(),
        ensures
            final(self)@ == old(self)@.with_chunk(bytes@),
    {
        proof {
            use_type_invariant(&*self);
        }
        self.at = 0;
        self.chunk = bytes;
        assert(self@.left =~= bytes@);
    }

    /// The next notification for the chunk under way; none once all its bytes are handed out, and
    /// none after a refusal.
    pub fn next_delta(&mut self) -> (notification: Option<HttpRequestBodyDeltaNotification>)
        requires
            old(self)@.seq < u64::MAX,
        ensures
            match notification {
                Some(notification) => old(self)@.has_piece() && notification@ == old(self)@.piece()
                    && final(self)@ == old(self)@.after_piece(),
                None => !old(self)@.has_piece() && final(self)@ == old(self)@,
            },
    {
        proof {
            use_type_invariant(&*self);
        }
        if !self.open || self.at == self.chunk.len() {
            return None;
        }
        let left = self.chunk.len() - self.at;
        let count: usize = if left < self.max_delta_bytes {
            left
        } else {
            self.max_delta_bytes
        };
        let ghost before = self@;
        let end = self.at + count;
        let notification = HttpRequestBodyDeltaNotification {
            request_id: self.request_id.clone(),
            seq: self.seq,
            delta: copy_range(&self.chunk, self.at, end),
            done: false,
            error: None,
        };
        assert(notification@.delta =~= before.left.take(count as int));
        self.seq = self.seq + 1;
        self.at = end;
        assert(self@.left =~= before.left.skip(count as int));
        Some(notification)
    }

    /// Takes note whether the last notification was accepted. After a refusal nothing follows,
    /// not even the last notification.
    pub fn sent(&mut self, accepted: bool)
        ensures
            final(self)@ == old(self)@.answered(accepted),
    {
        proof {
            use_type_invariant(&*self);
        }
        self.open = self.open && accepted;
    }

    /// The last notification: without an error where the body ended, with one where reading it
    /// failed; none after a refusal.
    pub fn finish(self, error: Option<String>) -> (notification: Option<
        HttpRequestBodyDeltaNotification,
    >)
        requires
            self@.awaits_chunk(),
        ensures
            match notification {
                Some(notification) => self@.open && notification@ == last_delta(
                    self@.request_id,
                    self@.seq,
                    optional_text(error),
                ),
                None => !self@.open,
            },
    {
        if !self.open {
            return None;
        }
        let delta: Vec<u8> = Vec::new();
        Some(
            HttpRequestBodyDeltaNotification {
                request_id: self.request_id,
                seq: self.seq,
                delta,
                done: true,
                error,
            },
        )
    }
}

/// The notifications for the chunks of a body, numbered from `seq`.
pub open spec fn body_deltas(
    request_id: Seq<char>,
    seq: nat,
    chunks: Seq<Seq<u8>>,
    max: nat,
) -> Seq<BodyDelta>
    decreases chunks.len(),
{
    if chunks.len() == 0 {
        Seq::empty()
    } else {
        let first = chunk_deltas(request_id, seq, chunks[0], max);
        first + body_deltas(request_id, seq + first.len(), chunks.skip(1), max)
    }
}

/// All notifications of a stream: those of its chunks, and the last one.
pub open spec fn stream_deltas(
    request_id: Seq<char>,
    chunks: Seq<Seq<u8>>,
    max: nat,
    error: Option<Seq<char>>,
) -> Seq<BodyDelta> {
    let deltas = body_deltas(request_id, 1, chunks, max);
    deltas.push(last_delta(request_id, 1 + deltas.len(), error))
}

/// The bytes that notifications carry, one after the other.
pub open spec fn carried_bytes(deltas: Seq<BodyDelta>) -> Seq<u8>
    decreases deltas.len(),
{
    if deltas.len() == 0 {
        Seq::empty()
    } else {
        deltas[0].delta + carried_bytes(deltas.skip(1))
    }
}

/// The bytes of a body that came in chunks.
pub open spec fn chunk_bytes(chunks: Seq<Seq<u8>>) -> Seq<u8>
    decreases chunks.len(),
{
    if chunks.len() == 0 {
        Seq::empty()
    } else {
        chunks[0] + chunk_bytes(chunks.skip(1))
    }
}

/// A notification of body bytes: it is not the last one, and carries one to `max` bytes.
pub open spec fn is_body_delta(delta: BodyDelta, request_id: Seq<char>, seq: nat, max: nat) -> bool {
    &&& delta.request_id == request_id
    &&& delta.seq == seq
    &&& 1 <= delta.delta.len() <= max
    &&& !delta.done
    &&& delta.error is None
}

proof fn carried_bytes_concat(a: Seq<BodyDelta>, b: Seq<BodyDelta>)
    ensures
        carried_bytes(a + b) == carried_bytes(a) + carried_bytes(b),
    decreases a.len(),
{
    if a.len() == 0 {
        assert(a + b == b);
    } else {
        carried_bytes_concat(a.skip(1), b);
        assert((a + b).skip(1) == a.skip(1) + b);
        assert((a + b)[0] == a[0]);
        assert(carried_bytes(a + b) =~= carried_bytes(a) + carried_bytes(b));
    }
}

proof fn chunk_deltas_carry_the_chunk(request_id: Seq<char>, seq: nat, bytes: Seq<u8>, max: nat)
    requires
        max > 0,
    ensures
        carried_bytes(chunk_deltas(request_id, seq, bytes, max)) == bytes,
        forall|i: int|
            0 <= i < chunk_deltas(request_id, seq, bytes, max).len() ==> is_body_delta(
                #[trigger] chunk_deltas(request_id, seq, bytes, max)[i],
                request_id,
                seq + i as nat,
                max,
            ),
    decreases bytes.len(),
{
    if bytes.len() > 0 {
        let count: int = if bytes.len() < max {
            bytes.len() as int
        } else {
            max as int
        };
        let rest = chunk_deltas(request_id, seq + 1, bytes.skip(count), max);
        let all = chunk_deltas(request_id, seq, bytes, max);
        chunk_deltas_carry_the_chunk(request_id, seq + 1, bytes.skip(count), max);
        assert(all.skip(1) == rest);
        assert(all[0].delta == bytes.take(count));
        assert(bytes.take(count) + bytes.skip(count) == bytes);
        assert forall|i: int| 0 <= i < all.len() implies is_body_delta(
            #[trigger] all[i],
            request_id,
            seq + i as nat,
            max,
        ) by {
            if i > 0 {
                assert(all[i] == rest[i - 1]);
            }
        }
    }
}

proof fn body_deltas_carry_the_chunks(
    request_id: Seq<char>,
    seq: nat,
    chunks: Seq<Seq<u8>>,
    max: nat,
)
    requires
        max > 0,
    ensures
        carried_bytes(body_deltas(request_id, seq, chunks, max)) == chunk_bytes(chunks),
        forall|i: int|
            0 <= i < body_deltas(request_id, seq, chunks, max).len() ==> is_body_delta(
                #[trigger] body_deltas(request_id, seq, chunks, max)[i],
                request_id,
                seq + i as nat,
                max,
            ),
    decreases chunks.len(),
{
    if chunks.len() > 0 {
        let first = chunk_deltas(request_id, seq, chunks[0], max);
        let rest = body_deltas(request_id, seq + first.len(), chunks.skip(1), max);
        chunk_deltas_carry_the_chunk(request_id, seq, chunks[0], max);
        body_deltas_carry_the_chunks(request_id, seq + first.len(), chunks.skip(1), max);
        carried_bytes_concat(first, rest);
        assert forall|i: int| 0 <= i < (first + rest).len() implies is_body_delta(
            #[trigger] (first + rest)[i],
            request_id,
            seq + i as nat,
            max,
        ) by {
            if i >= first.len() {
                assert((first + rest)[i] == rest[i - first.len()]);
            }
        }
    }
}

/// A streamed body arrives whole and in order: the notifications carry exactly the bytes of the
/// chunks, each of them at most `max` bytes, they are numbered from one without gaps, and
/// exactly the last one ends the stream and tells whether reading failed.
pub proof fn streamed_bodies_arrive_whole(
    request_id: Seq<char>,
    chunks: Seq<Seq<u8>>,
    max: nat,
    error: Option<Seq<char>>,
)
    requires
        max > 0,
    ensures
        carried_bytes(stream_deltas(request_id, chunks, max, error)) == chunk_bytes(chunks),
        forall|i: int|
            0 <= i < stream_deltas(request_id, chunks, max, error).len() - 1 ==> is_body_delta(
                #[trigger] stream_deltas(request_id, chunks, max, error)[i],
                request_id,
                1 + i as nat,
                max,
            ),
        stream_deltas(request_id, chunks, max, error).last() == last_delta(
            request_id,
            stream_deltas(request_id, chunks, max, error).len(),
            error,
        ),
{
    let deltas = body_deltas(request_id, 1, chunks, max);
    let end = last_delta(request_id, 1 + deltas.len(), error);
    body_deltas_carry_the_chunks(request_id, 1, chunks, max);
    carried_bytes_concat(deltas, seq![end]);
    assert(deltas + seq![end] == deltas.push(end));
    assert(carried_bytes(seq![end]) == Seq::<u8>::empty()) by {
        assert(seq![end].skip(1) == Seq::<BodyDelta>::empty());
        assert(carried_bytes(seq![end].skip(1)) == Seq::<u8>::empty());
    }
    assert forall|i: int| 0 <= i < deltas.len() implies is_body_delta(
        #[trigger] deltas.push(end)[i],
        request_id,
        1 + i as nat,
        max,
    ) by {
        assert(deltas.push(end)[i] == deltas[i]);
    }
}

/// What a stream has sent, and its state, once the pieces of the chunk under way are handed out.
/// The notification behind `n` others is accepted where `answers(n)` holds.
pub open spec fn drained(
    stream: StreamState,
    answers: spec_fn(nat) -> bool,
    sent: Seq<BodyDelta>,
) -> (StreamState, Seq<BodyDelta>)
    decreases stream.left.len(),
{
    if stream.has_piece() {
        drained(
            stream.after_piece().answered(answers(sent.len())),
            answers,
            sent.push(stream.piece()),
        )
    } else {
        (stream, sent)
    }
}

/// What a stream has sent once the chunks came and the body ended.
pub open spec fn streamed(
    stream: StreamState,
    chunks: Seq<Seq<u8>>,
    error: Option<Seq<char>>,
    answers: spec_fn(nat) -> bool,
    sent: Seq<BodyDelta>,
) -> Seq<BodyDelta>
    decreases chunks.len(),
{
    if chunks.len() > 0 {
        let (next, sent) = drained(stream.with_chunk(chunks[0]), answers, sent);
        streamed(next, chunks.skip(1), error, answers, sent)
    } else if stream.open {
        sent.push(last_delta(stream.request_id, stream.seq, error))
    } else {
        sent
    }
}

/// The notifications up to the first that is refused, where `from` others were sent before.
spec fn up_to_refusal(
    deltas: Seq<BodyDelta>,
    answers: spec_fn(nat) -> bool,
    from: nat,
) -> Seq<BodyDelta>
    decreases deltas.len(),
{
    if deltas.len() == 0 {
        Seq::empty()
    } else if answers(from) {
        seq![deltas[0]] + up_to_refusal(deltas.skip(1), answers, from + 1)
    } else {
        seq![deltas[0]]
    }
}

/// The `count` notifications behind `from` others are accepted.
spec fn all_accepted(answers: spec_fn(nat) -> bool, from: nat, count: nat) -> bool {
    forall|n: nat| from <= n < from + count ==> #[trigger] answers(n)
}

proof fn up_to_refusal_of_both(
    a: Seq<BodyDelta>,
    b: Seq<BodyDelta>,
    answers: spec_fn(nat) -> bool,
    from: nat,
)
    ensures
        up_to_refusal(a + b, answers, from) == if all_accepted(answers, from, a.len()) {
            a + up_to_refusal(b, answers, from + a.len())
        } else {
            up_to_refusal(a, answers, from)
        },
    decreases a.len(),
{
    if a.len() == 0 {
        assert(a + b =~= b);
        assert(a + up_to_refusal(b, answers, from) =~= up_to_refusal(b, answers, from));
    } else {
        let rest = a.skip(1);
        up_to_refusal_of_both(rest, b, answers, from + 1);
        assert((a + b).skip(1) =~= rest + b);
        assert((a + b)[0] == a[0]);
        if answers(from) {
            if all_accepted(answers, from + 1, rest.len()) {
                assert(all_accepted(answers, from, a.len())) by {
                    assert forall|n: nat| from <= n < from + a.len() implies #[trigger] answers(
                        n,
                    ) by {
                        if n > from {
                            assert(from + 1 <= n < from + 1 + rest.len());
                        }
                    }
                }
                let tail = up_to_refusal(b, answers, from + a.len());
                assert(seq![a[0]] + (rest + tail) =~= a + tail);
            } else {
                let n = choose|n: nat| from + 1 <= n < from + 1 + rest.len() && !(
                #[trigger] answers(n));
                assert(from <= n < from + a.len());
                assert(!all_accepted(answers, from, a.len()));
            }
        } else {
            assert(!all_accepted(answers, from, a.len())) by {
                assert(from <= from < from + a.len());
            }
        }
    }
}

proof fn drained_sends_up_to_refusal(
    stream: StreamState,
    answers: spec_fn(nat) -> bool,
    sent: Seq<BodyDelta>,
)
    requires
        stream.open,
        stream.max > 0,
    ensures
        ({
            let all = chunk_deltas(stream.request_id, stream.seq, stream.left, stream.max);
            let (next, out) = drained(stream, answers, sent);
            &&& out == sent + up_to_refusal(all, answers, sent.len())
            &&& next.open == all_accepted(answers, sent.len(), all.len())
            &&& next.request_id == stream.request_id
            &&& next.max == stream.max
            &&& next.open ==> next.seq == stream.seq + all.len() && out == sent + all
        }),
    decreases stream.left.len(),
{
    let all = chunk_deltas(stream.request_id, stream.seq, stream.left, stream.max);
    let from = sent.len();
    if stream.left.len() > 0 {
        let piece = stream.piece();
        let after = stream.after_piece();
        let rest = chunk_deltas(after.request_id, after.seq, after.left, after.max);
        assert(all =~= seq![piece] + rest);
        assert(all.skip(1) =~= rest);
        let out = sent.push(piece);
        let next = after.answered(answers(from));
        if answers(from) {
            assert(next == after);
            drained_sends_up_to_refusal(after, answers, out);
            assert(out + up_to_refusal(rest, answers, from + 1) =~= sent + (seq![piece]
                + up_to_refusal(rest, answers, from + 1)));
            assert(out + rest =~= sent + all);
            if all_accepted(answers, from + 1, rest.len()) {
                assert forall|n: nat| from <= n < from + all.len() implies #[trigger] answers(
                    n,
                ) by {
                    if n > from {
                        assert(from + 1 <= n < from + 1 + rest.len());
                    }
                }
            } else {
                let n = choose|n: nat| from + 1 <= n < from + 1 + rest.len() && !(
                #[trigger] answers(n));
                assert(from <= n < from + all.len());
            }
        } else {
            assert(!next.open);
            assert(drained(next, answers, out) == (next, out));
            assert(out =~= sent + seq![piece]);
            assert(from <= from < from + all.len());
        }
    } else {
        assert(sent + up_to_refusal(all, answers, from) =~= sent);
    }
}

proof fn closed_streams_send_nothing(
    stream: StreamState,
    chunks: Seq<Seq<u8>>,
    error: Option<Seq<char>>,
    answers: spec_fn(nat) -> bool,
    sent: Seq<BodyDelta>,
)
    requires
        !stream.open,
    ensures
        streamed(stream, chunks, error, answers, sent) == sent,
    decreases chunks.len(),
{
    if chunks.len() > 0 {
        closed_streams_send_nothing(
            stream.with_chunk(chunks[0]),
            chunks.skip(1),
            error,
            answers,
            sent,
        );
    }
}

proof fn streams_send_up_to_refusal(
    stream: StreamState,
    chunks: Seq<Seq<u8>>,
    error: Option<Seq<char>>,
    answers: spec_fn(nat) -> bool,
    sent: Seq<BodyDelta>,
)
    requires
        stream.open,
        stream.max > 0,
    ensures
        ({
            let deltas = body_deltas(stream.request_id, stream.seq, chunks, stream.max);
            let all = deltas.push(
                last_delta(stream.request_id, stream.seq + deltas.len(), error),
            );
            streamed(stream, chunks, error, answers, sent) == sent + up_to_refusal(
                all,
                answers,
                sent.len(),
            )
        }),
    decreases chunks.len(),
{
    let deltas = body_deltas(stream.request_id, stream.seq, chunks, stream.max);
    let end = last_delta(stream.request_id, stream.seq + deltas.len(), error);
    if chunks.len() > 0 {
        let start = stream.with_chunk(chunks[0]);
        let first = chunk_deltas(stream.request_id, stream.seq, chunks[0], stream.max);
        let rest = body_deltas(
            stream.request_id,
            stream.seq + first.len(),
            chunks.skip(1),
            stream.max,
        );
        let (next, out) = drained(start, answers, sent);
        drained_sends_up_to_refusal(start, answers, sent);
        up_to_refusal_of_both(first, rest.push(end), answers, sent.len());
        assert(deltas.push(end) =~= first + rest.push(end));
        if next.open {
            streams_send_up_to_refusal(next, chunks.skip(1), error, answers, out);
            let tail = up_to_refusal(rest.push(end), answers, out.len());
            assert(out + tail =~= sent + (first + tail));
        } else {
            closed_streams_send_nothing(next, chunks.skip(1), error, answers, out);
        }
    } else {
        assert(deltas.push(end) =~= seq![end]);
        assert(seq![end].skip(1) =~= Seq::<BodyDelta>::empty());
        assert(up_to_refusal(seq![end].skip(1), answers, sent.len() + 1)
            =~= Seq::<BodyDelta>::empty());
        assert(up_to_refusal(seq![end], answers, sent.len()) =~= seq![end]);
        assert(sent.push(end) =~= sent + seq![end]);
    }
}

proof fn up_to_refusal_is_prefix(
    deltas: Seq<BodyDelta>,
    answers: spec_fn(nat) -> bool,
    from: nat,
    count: nat,
)
    requires
        all_accepted(answers, from, count),
        count <= deltas.len(),
        count < deltas.len() ==> !answers(from + count),
    ensures
        up_to_refusal(deltas, answers, from) == if count < deltas.len() {
            deltas.take(count as int + 1)
        } else {
            deltas
        },
    decreases deltas.len(),
{
    if count > 0 {
        let rest = deltas.skip(1);
        assert(answers(from)) by {
            assert(from <= from < from + count);
        }
        assert(all_accepted(answers, from + 1, (count - 1) as nat)) by {
            assert forall|n: nat| from + 1 <= n < from + 1 + (count - 1) implies #[trigger] answers(
                n,
            ) by {
                assert(from <= n < from + count);
            }
        }
        up_to_refusal_is_prefix(rest, answers, from + 1, (count - 1) as nat);
        if count < deltas.len() {
            assert(seq![deltas[0]] + rest.take(count as int) =~= deltas.take(count as int + 1));
        } else {
            assert(seq![deltas[0]] + rest =~= deltas);
        }
    } else if deltas.len() > 0 {
        assert(seq![deltas[0]] =~= deltas.take(1));
    } else {
        assert(deltas =~= Seq::<BodyDelta>::empty());
    }
}

/// A stream whose notifications are all accepted sends all of them, to the last.
pub proof fn accepted_streams_are_complete(
    request_id: Seq<char>,
    chunks: Seq<Seq<u8>>,
    max: nat,
    error: Option<Seq<char>>,
    answers: spec_fn(nat) -> bool,
)
    requires
        max > 0,
        forall|n: nat|
            n < stream_deltas(request_id, chunks, max, error).len() ==> #[trigger] answers(n),
    ensures
        streamed(
            StreamState::fresh(request_id, max),
            chunks,
            error,
            answers,
            Seq::empty(),
        ) == stream_deltas(request_id, chunks, max, error),
{
    let all = stream_deltas(request_id, chunks, max, error);
    let sent = Seq::<BodyDelta>::empty();
    streams_send_up_to_refusal(
        StreamState::fresh(request_id, max),
        chunks,
        error,
        answers,
        sent,
    );
    up_to_refusal_is_prefix(all, answers, 0, all.len());
    assert(sent + all =~= all);
}

/// A refused notification is the last that is sent: nothing of the body follows, nor the
/// notification that ends the stream.
pub proof fn refused_notifications_end_the_stream(
    request_id: Seq<char>,
    chunks: Seq<Seq<u8>>,
    max: nat,
    error: Option<Seq<char>>,
    answers: spec_fn(nat) -> bool,
    refused: nat,
)
    requires
        max > 0,
        refused < stream_deltas(request_id, chunks, max, error).len(),
        !answers(refused),
        forall|n: nat| n < refused ==> #[trigger] answers(n),
    ensures
        streamed(
            StreamState::fresh(request_id, max),
            chunks,
            error,
            answers,
            Seq::empty(),
        ) == stream_deltas(request_id, chunks, max, error).take(refused as int + 1),
{
    let all = stream_deltas(request_id, chunks, max, error);
    let sent = Seq::<BodyDelta>::empty();
    streams_send_up_to_refusal(
        StreamState::fresh(request_id, max),
        chunks,
        error,
        answers,
        sent,
    );
    up_to_refusal_is_prefix(all, answers, 0, refused);
    assert(sent + all.take(refused as int + 1) =~= all.take(refused as int + 1));
}

} // verus!
