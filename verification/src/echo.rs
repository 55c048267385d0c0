//! The bounded echo stream: a request body, repeated a given number of
//! times, one chunk per pull.
//!
//! Nothing is produced ahead of the consumer. A stream of a million chunks
//! holds one copy of the body and two counters; each pull makes one chunk,
//! and a consumer that stops pulling has made the stream stop producing.

use vstd::prelude::*;
use actix_web::web::Bytes;
use crate::chunk::{chunk_bytes, chunk_from_vec};
use crate::limit::{limit_from_query, spec_limit_from_query, spec_raw, LimitError};
use crate::reply::{ContentKind, Reply, STATUS_BAD_REQUEST, STATUS_OK};

verus! {

/// What a stream is, to its consumer.
pub struct EchoModel {
    /// The bytes of every chunk.
    pub body: Seq<u8>,
    /// How many chunks the stream has yet to produce.
    pub remaining: nat,
    /// How many chunks the stream has produced.
    pub produced: nat,
}

impl EchoModel {
    /// A stream that will repeat `body` `limit` times and has produced
    /// nothing yet.
    pub open spec fn fresh(body: Seq<u8>, limit: nat) -> EchoModel {
        EchoModel { body, remaining: limit, produced: 0 }
    }

    /// The chunk that the next pull yields, if it yields one.
    pub open spec fn next_chunk(self) -> Option<Seq<u8>> {
        if self.remaining > 0 {
            Some(self.body)
        } else {
            None
        }
    }

    /// The stream after one pull.
    pub open spec fn pulled(self) -> EchoModel {
        if self.remaining > 0 {
            EchoModel {
                body: self.body,
                remaining: (self.remaining - 1) as nat,
                produced: self.produced + 1,
            }
        } else {
            self
        }
    }

    /// The stream after the consumer has gone away.
    pub open spec fn cancelled(self) -> EchoModel {
        EchoModel { body: self.body, remaining: 0, produced: self.produced }
    }

    /// The stream after `pulls` pulls.
    pub open spec fn after(self, pulls: nat) -> EchoModel
        decreases pulls,
    {
        if pulls == 0 {
            self
        } else {
            self.pulled().after((pulls - 1) as nat)
        }
    }

    /// The chunks that `pulls` pulls yield, in the order in which they come.
    pub open spec fn chunks(self, pulls: nat) -> Seq<Seq<u8>>
        decreases pulls,
    {
        if pulls == 0 {
            Seq::empty()
        } else {
            match self.next_chunk() {
                Some(chunk) => seq![chunk] + self.pulled().chunks((pulls - 1) as nat),
                None => Seq::empty(),
            }
        }
    }
}

/// `body`, `times` times over.
pub open spec fn spec_repeat(body: Seq<u8>, times: nat) -> Seq<u8>
    decreases times,
{
    if times == 0 {
        Seq::empty()
    } else {
        body + spec_repeat(body, (times - 1) as nat)
    }
}

/// The bytes of `chunks`, one chunk after another.
pub open spec fn concat(chunks: Seq<Seq<u8>>) -> Seq<u8>
    decreases chunks.len(),
{
    if chunks.len() == 0 {
        Seq::empty()
    } else {
        chunks[0] + concat(chunks.subrange(1, chunks.len() as int))
    }
}

/// A lazily produced, finite sequence of copies of one body.
#[derive(Debug)]
pub struct BoundedEchoStream {
    body: Vec<u8>,
    remaining: usize,
    produced: usize,
}

impl View for BoundedEchoStream {
    type V = EchoModel;

    closed spec fn view(&self) -> EchoModel {
        EchoModel {
            body: self.body@,
            remaining: self.remaining as nat,
            produced: self.produced as nat,
        }
    }
}

impl BoundedEchoStream {
    #[verifier::type_invariant]
    spec fn counters_fit(self) -> bool {
        self.produced + self.remaining <= usize::MAX
    }

    /// A stream that will yield `limit` copies of `body`. Builds nothing but
    /// the stream itself: no chunk exists before the first pull.
    pub fn build(body: Vec<u8>, limit: usize) -> (stream: Self)
        ensures
            stream@ == EchoModel::fresh(body@, limit as nat),
    {
        BoundedEchoStream { body, remaining: limit, produced: 0 }
    }

    /// Pulls the next chunk: a copy of the body, or `None` once the stream
    /// has yielded all its chunks or was cancelled. A pull produces at most
    /// the one chunk that it returns.
    pub fn next_chunk(&mut self) -> (chunk: Option<Bytes>)
        ensures
            final(self)@ == old(self)@.pulled(),
            match chunk {
                Some(bytes) => old(self)@.next_chunk() == Some(chunk_bytes(bytes)),
                None => old(self)@.next_chunk() is None,
            },
    {
        proof {
            use_type_invariant(&*self);
        }
        if self.remaining == 0 {
            return None;
        }
        let copy = self.body.clone();
        self.remaining = self.remaining - 1;
        self.produced = self.produced + 1;
        Some(chunk_from_vec(copy))
    }

    /// Stops the stream: the consumer has gone away. No further chunk is
    /// produced. This is an ordinary end of a stream, not a failure.
    pub fn cancel(&mut self)
        ensures
            final(self)@ == old(self)@.cancelled(),
    {
        proof {
            use_type_invariant(&*self);
        }
        self.remaining = 0;
    }

    /// How many chunks the stream has yet to produce.
    pub fn remaining(&self) -> (n: usize)
        ensures
            n == self@.remaining,
    {
        self.remaining
    }

    /// How many chunks the stream has produced so far.
    pub fn produced(&self) -> (n: usize)
        ensures
            n == self@.produced,
    {
        self.produced
    }

    /// The bytes of every chunk.
    pub fn body(&self) -> (bytes: &[u8])
        ensures
            bytes@ == self@.body,
    {
        self.body.as_slice()
    }
}

/// A successful answer whose body is a stream.
#[derive(Debug)]
pub struct StreamedReply {
    /// The HTTP status code.
    pub status: u16,
    /// The declared content type.
    pub content_type: ContentKind,
    /// The body, to be pulled chunk by chunk.
    pub body: BoundedEchoStream,
}

/// The answer to a request that carries no usable limit: a client error that
/// says why.
pub fn rejection(error: LimitError) -> (reply: Reply)
    ensures
        reply.status == STATUS_BAD_REQUEST,
        reply.content_type == Some(ContentKind::PlainText),
        reply.body@ == error.spec_message(),
{
    Reply {
        status: STATUS_BAD_REQUEST,
        content_type: Some(ContentKind::PlainText),
        body: String::from_str(error.message()),
    }
}

/// Handles an echo request with body `req_body` whose `limit` parameter is
/// `raw_limit`. With a usable limit the answer is a success whose body is a
/// fresh stream of that many copies of `req_body`, declared as plain text.
/// Without one the request is rejected before any stream exists.
pub fn echo(req_body: Vec<u8>, raw_limit: Option<&[u8]>) -> (outcome: Result<StreamedReply, Reply>)
    ensures
        match spec_limit_from_query(spec_raw(raw_limit)) {
            Ok(limit) => outcome matches Ok(reply) && reply.status == STATUS_OK
                && reply.content_type == ContentKind::PlainText && reply.body@
                == EchoModel::fresh(req_body@, limit as nat),
            Err(error) => outcome matches Err(reply) && reply.status == STATUS_BAD_REQUEST
                && reply.content_type == Some(ContentKind::PlainText) && reply.body@
                == error.spec_message(),
        },
{
    match limit_from_query(raw_limit) {
        Ok(limit) => Ok(
            StreamedReply {
                status: STATUS_OK,
                content_type: ContentKind::PlainText,
                body: BoundedEchoStream::build(req_body, limit),
            },
        ),
        Err(error) => Err(rejection(error)),
    }
}

/// The smaller of two numbers.
pub open spec fn spec_min(a: nat, b: nat) -> nat {
    if a <= b {
        a
    } else {
        b
    }
}

/// What any number of pulls does to any stream: it yields one chunk per
/// pull until none remains, each chunk the body, and counts each chunk that
/// it yields.
pub proof fn lemma_pulls(stream: EchoModel, pulls: nat)
    ensures
        stream.after(pulls).body == stream.body,
        stream.after(pulls).produced == stream.produced + spec_min(pulls, stream.remaining),
        stream.after(pulls).remaining == stream.remaining - spec_min(pulls, stream.remaining),
        stream.chunks(pulls).len() == spec_min(pulls, stream.remaining),
        forall|i: int|
            0 <= i < stream.chunks(pulls).len() ==> #[trigger] stream.chunks(pulls)[i]
                == stream.body,
        concat(stream.chunks(pulls)) == spec_repeat(
            stream.body,
            spec_min(pulls, stream.remaining),
        ),
    decreases pulls,
{
    if pulls > 0 && stream.remaining > 0 {
        let rest = stream.pulled().chunks((pulls - 1) as nat);
        let all = stream.chunks(pulls);
        lemma_pulls(stream.pulled(), (pulls - 1) as nat);
        assert(all.subrange(1, all.len() as int) =~= rest);
    } else if pulls > 0 {
        lemma_pulls(stream.pulled(), (pulls - 1) as nat);
    }
}

/// Stream length: a consumer that pulls a fresh stream until it ends
/// receives exactly `limit` chunks, each equal to the body, so that the
/// response body is the request body `limit` times over; and then the
/// stream has ended. With a limit of zero that is the empty body.
pub proof fn lemma_stream_in_full(body: Seq<u8>, limit: nat, pulls: nat)
    requires
        pulls >= limit,
    ensures
        EchoModel::fresh(body, limit).chunks(pulls).len() == limit,
        forall|i: int|
            0 <= i < limit ==> #[trigger] EchoModel::fresh(body, limit).chunks(pulls)[i] == body,
        concat(EchoModel::fresh(body, limit).chunks(pulls)) == spec_repeat(body, limit),
        EchoModel::fresh(body, limit).after(pulls).next_chunk() is None,
        EchoModel::fresh(body, limit).after(pulls).produced == limit,
{
    lemma_pulls(EchoModel::fresh(body, limit), pulls);
}

/// Early termination: after `pulls` pulls a stream has produced `pulls`
/// chunks and no more, however many it would still yield. A consumer that
/// goes away after `pulls < limit` chunks leaves the rest unmade.
pub proof fn lemma_lazy_production(body: Seq<u8>, limit: nat, pulls: nat)
    requires
        pulls <= limit,
    ensures
        EchoModel::fresh(body, limit).after(pulls).produced == pulls,
        EchoModel::fresh(body, limit).chunks(pulls).len() == pulls,
        EchoModel::fresh(body, limit).after(pulls).remaining == limit - pulls,
        EchoModel::fresh(body, limit).after(pulls).cancelled().produced == pulls,
{
    lemma_pulls(EchoModel::fresh(body, limit), pulls);
}

/// A cancelled stream stays as it is: no pull yields a chunk or produces
/// one.
pub proof fn lemma_cancelled_is_final(stream: EchoModel, pulls: nat)
    ensures
        stream.cancelled().next_chunk() is None,
        stream.cancelled().after(pulls) == stream.cancelled(),
        stream.cancelled().chunks(pulls).len() == 0,
        stream.cancelled().produced == stream.produced,
{
    lemma_pulls(stream.cancelled(), pulls);
}

/// The length of a repeated body.
pub proof fn lemma_repeat_len(body: Seq<u8>, times: nat)
    ensures
        spec_repeat(body, times).len() == times * body.len(),
    decreases times,
{
    if times > 0 {
        let fewer = (times - 1) as nat;
        lemma_repeat_len(body, fewer);
        assert(times * body.len() == body.len() + fewer * body.len()) by (nonlinear_arith)
            requires
                times == fewer + 1,
        ;
    } else {
        assert(times * body.len() == 0) by (nonlinear_arith)
            requires
                times == 0,
        ;
    }
}

} // verus!
