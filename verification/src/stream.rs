//! Decoder for long-lived streaming responses.
//!
//! A response body arrives as raw chunks at network speed. A [`ClashStream`]
//! buffers a bounded number of them and hands them out one by one, oldest
//! first, each decoded into a record.
//!
//! What a stream does is stated over [`model::StreamModel`]. That it keeps
//! the order of arrival, stays within its bound, drains its buffer before it
//! ends and ends for good is proved in [`model`]; [`written`] follows a
//! stream over answers that are known beforehand from end to end.

pub mod log;
pub mod model;
pub mod traffic;
pub mod written;

use crate::record::{decode, decoded, describes, DecodedItem, Record};
use crate::stream::model::{Delivery, Event, StreamModel, StreamState};
use bytes::Bytes;
use std::collections::VecDeque;
use std::marker::PhantomData;
use vstd::prelude::*;

verus! {

/// The number of chunks that a stream buffers unless told otherwise.
pub const BUFFERSIZE: usize = 16;

/// `bytes::Bytes`, a chunk as the transport delivers it. What it holds is
/// [`chunk_bytes`].
#[verifier::external_type_specification]
#[verifier::external_body]
pub struct ExBytes(bytes::Bytes);

/// One chunk of a response body, as the transport delivers it. It need not
/// hold one whole record.
pub type RawChunk = Bytes;

/// The bytes that a chunk holds.
pub uninterp spec fn chunk_bytes(chunk: Bytes) -> Seq<u8>;

/// `Bytes::as_ref`: the chunk's bytes as a slice.
#[verifier::external_body]
pub(crate) fn chunk_slice(chunk: &Bytes) -> (r: &[u8])
    ensures
        r@ == chunk_bytes(*chunk),
{
    chunk.as_ref()
}

/// One answer of a chunk source.
#[derive(Debug, PartialEq, Eq)]
pub enum SourceEvent {
    /// A chunk of the response body.
    Chunk(RawChunk),
    /// The body has ended.
    EndOfBody,
    /// The transport has failed.
    SourceError,
    /// No chunk is available for now.
    Pending,
}

impl View for SourceEvent {
    type V = Event;

    open spec fn view(&self) -> Event {
        match *self {
            SourceEvent::Chunk(chunk) => Event::Chunk(chunk_bytes(chunk)),
            SourceEvent::EndOfBody => Event::EndOfBody,
            SourceEvent::SourceError => Event::SourceError,
            SourceEvent::Pending => Event::Pending,
        }
    }
}

/// Where the chunks of a response body come from.
///
/// A stream copes with whatever a source answers. A source of which more is
/// known says so in [`ChunkSource::answers`].
pub trait ChunkSource: Sized {
    /// Whether the source may answer `event` and be `after` afterwards.
    /// Unless a source says otherwise, it may answer anything.
    open spec fn answers(&self, after: &Self, event: Event) -> bool {
        true
    }

    /// Asks for the next chunk without waiting for one.
    fn next_chunk(&mut self) -> (r: SourceEvent)
        ensures
            old(self).answers(final(self), r@),
    ;
}

/// Answers that were written down beforehand are a source: it gives them
/// one by one, and has nothing for now once they are used up.
impl ChunkSource for VecDeque<SourceEvent> {
    open spec fn answers(&self, after: &Self, event: Event) -> bool {
        if self@.len() > 0 {
            event == self@[0]@ && after@ == self@.drop_first()
        } else {
            event is Pending && after@ == self@
        }
    }

    fn next_chunk(&mut self) -> (r: SourceEvent) {
        match self.pop_front() {
            Some(event) => event,
            None => SourceEvent::Pending,
        }
    }
}

/// Whether the `i`-th of the answers `polled` is one that the source gave
/// as it was then. A stream that has let go of its source is told that the
/// body has ended.
pub open spec fn answered<S: ChunkSource>(
    states: Seq<Option<S>>,
    polled: Seq<Event>,
    i: int,
) -> bool {
    match (states[i], states[i + 1]) {
        (Some(before), Some(after)) => before.answers(&after, polled[i]),
        (None, None) => polled[i] is EndOfBody,
        _ => false,
    }
}

/// Whether `polled` are answers that a source gives one after the other,
/// while it goes through `states`.
pub open spec fn asked_through<S: ChunkSource>(states: Seq<Option<S>>, polled: Seq<Event>) -> bool {
    &&& states.len() == polled.len() + 1
    &&& forall|i: int| 0 <= i < polled.len() ==> #[trigger] answered(states, polled, i)
}

/// Whether a source that starts out as `before` may give the answers
/// `polled` one after the other and be `after` then.
pub open spec fn asked<S: ChunkSource>(
    before: Option<S>,
    polled: Seq<Event>,
    after: Option<S>,
) -> bool {
    exists|states: Seq<Option<S>>|
        #[trigger] asked_through(states, polled) && states.first() == before && states.last()
            == after
}

/// What one pull of a stream returns.
#[derive(Debug, PartialEq, Eq)]
pub enum Pull<T> {
    /// The next item: a record, or the reason why its chunk gave none.
    Ready(DecodedItem<T>),
    /// Nothing is buffered and the source has nothing for now: pull again
    /// later.
    NotYetReady,
    /// Every chunk has been delivered and no more will come.
    EndOfSequence,
}

/// Whether `pull` is what a stream of records `T` returns for `delivery`.
pub open spec fn is_outcome<T: Record>(pull: Pull<T>, delivery: Delivery) -> bool {
    match delivery {
        Delivery::Chunk(bytes) => pull matches Pull::Ready(item) && describes(
            item,
            decoded::<T>(bytes),
        ),
        Delivery::NotYetReady => pull is NotYetReady,
        Delivery::EndOfSequence => pull is EndOfSequence,
    }
}

/// A pull-based sequence of records decoded from the chunks of a source.
pub struct ClashStream<T: Record, S: ChunkSource> {
    source: Option<S>,
    buf: VecDeque<RawChunk>,
    state: StreamState,
    capacity: usize,
    _marker: PhantomData<T>,
}

impl<T: Record, S: ChunkSource> View for ClashStream<T, S> {
    type V = StreamModel;

    closed spec fn view(&self) -> StreamModel {
        StreamModel {
            buffer: Seq::new(self.buf@.len(), |i: int| chunk_bytes(self.buf@[i])),
            state: self.state,
            capacity: self.capacity as nat,
        }
    }
}

impl<T: Record, S: ChunkSource> ClashStream<T, S> {
    #[verifier::type_invariant]
    spec fn inv(self) -> bool {
        self@.wf()
    }

    /// The source as it is now, unless the stream has let go of it. It lets
    /// go of it when it is closed by hand.
    pub closed spec fn source(&self) -> Option<S> {
        self.source
    }

    /// Opens a stream over `source` that buffers up to [`BUFFERSIZE`] chunks.
    pub fn new(source: S) -> (r: Self)
        ensures
            r@ == StreamModel::opened(BUFFERSIZE as nat),
            r.source() == Some(source),
    {
        Self::with_capacity(source, BUFFERSIZE)
    }

    /// Opens a stream over `source` that buffers up to `capacity` chunks.
    pub fn with_capacity(source: S, capacity: usize) -> (r: Self)
        ensures
            r@ == StreamModel::opened(capacity as nat),
            r.source() == Some(source),
    {
        let r = ClashStream {
            source: Some(source),
            buf: VecDeque::new(),
            state: StreamState::Open,
            capacity,
            _marker: PhantomData,
        };
        assert(r@.buffer =~= Seq::empty());
        r
    }

    /// Whether the next pull asks the source for a chunk.
    pub fn wants_chunk(&self) -> (r: bool)
        ensures
            r == self@.wants_chunk(),
    {
        matches!(self.state, StreamState::Open) && self.buf.len() < self.capacity
    }

    /// Appends a chunk to the buffer.
    fn push_chunk(&mut self, chunk: RawChunk)
        requires
            old(self)@.wants_chunk(),
        ensures
            final(self)@ == old(self)@.absorb(Event::Chunk(chunk_bytes(chunk))),
            final(self).source() == old(self).source(),
    {
        let mut buf = VecDeque::new();
        core::mem::swap(&mut buf, &mut self.buf);
        buf.push_back(chunk);
        self.buf = buf;
        assert(self@.buffer =~= old(self)@.buffer.push(chunk_bytes(chunk)));
    }

    /// Removes the oldest chunk from the buffer.
    fn pop_chunk(&mut self) -> (r: Option<RawChunk>)
        ensures
            match r {
                Some(chunk) => old(self)@.buffer.len() > 0 && chunk_bytes(chunk) == old(
                    self,
                )@.buffer.first() && final(self)@ == (StreamModel {
                    buffer: old(self)@.buffer.drop_first(),
                    ..old(self)@
                }),
                None => old(self)@.buffer.len() == 0 && final(self)@ == old(self)@,
            },
            final(self).source() == old(self).source(),
    {
        proof {
            use_type_invariant(&*self);
        }
        let mut buf = VecDeque::new();
        core::mem::swap(&mut buf, &mut self.buf);
        let r = buf.pop_front();
        self.buf = buf;
        assert(r is Some ==> self@.buffer =~= old(self)@.buffer.drop_first());
        r
    }

    /// Asks the source for its next answer. A stream that has let go of its
    /// source is told that the body has ended.
    fn ask(&mut self) -> (r: SourceEvent)
        ensures
            final(self)@ == old(self)@,
            match (old(self).source(), final(self).source()) {
                (Some(before), Some(after)) => before.answers(&after, r@),
                (None, None) => r is EndOfBody,
                _ => false,
            },
    {
        proof {
            use_type_invariant(&*self);
        }
        let mut source = None;
        core::mem::swap(&mut source, &mut self.source);
        let event = match &mut source {
            Some(s) => s.next_chunk(),
            None => SourceEvent::EndOfBody,
        };
        self.source = source;
        event
    }

    /// Takes one answer of the source. A stream that wants no chunk gives
    /// the answer back untouched.
    pub fn offer(&mut self, event: SourceEvent) -> (r: Result<(), SourceEvent>)
        ensures
            final(self)@.wf(),
            final(self).source() == old(self).source(),
            old(self)@.wants_chunk() ==> r is Ok && final(self)@ == old(self)@.absorb(event@),
            !old(self)@.wants_chunk() ==> r == Err::<(), SourceEvent>(event) && final(self)@ == old(
                self,
            )@,
    {
        proof {
            use_type_invariant(&*self);
        }
        if !self.wants_chunk() {
            return Err(event);
        }
        match event {
            SourceEvent::Chunk(chunk) => {
                self.push_chunk(chunk);
            },
            SourceEvent::EndOfBody | SourceEvent::SourceError => {
                self.state = StreamState::SourceExhausted;
            },
            SourceEvent::Pending => {},
        }
        proof {
            use_type_invariant(&*self);
        }
        Ok(())
    }

    /// Hands out the oldest buffered chunk, decoded. With nothing buffered,
    /// a stream whose source is exhausted closes.
    pub fn deliver(&mut self) -> (r: Pull<T>)
        ensures
            final(self)@.wf(),
            final(self).source() == old(self).source(),
            final(self)@ == old(self)@.deliver().0,
            is_outcome(r, old(self)@.deliver().1),
    {
        proof {
            use_type_invariant(&*self);
        }
        match self.pop_chunk() {
            Some(chunk) => {
                proof {
                    use_type_invariant(&*self);
                }
                Pull::Ready(decode::<T>(chunk_slice(&chunk)))
            },
            None => {
                if matches!(self.state, StreamState::Open) {
                    Pull::NotYetReady
                } else {
                    self.state = StreamState::Closed;
                    Pull::EndOfSequence
                }
            },
        }
    }

    /// Pulls the next item: tops the buffer up from the source, as far as
    /// the source has chunks at hand and the bound allows, then hands out
    /// the oldest buffered chunk, decoded.
    ///
    /// Whatever the source answers, the stream ends up as the answers taken
    /// in this round say, and the item is the one they determine.
    pub fn next_item(&mut self) -> (r: Pull<T>)
        ensures
            final(self)@.wf(),
            final(self)@.capacity == old(self)@.capacity,
            exists|polled: Seq<Event>|
                {
                    &&& #[trigger] old(self)@.fill_round(polled)
                    &&& asked(old(self).source(), polled, final(self).source())
                    &&& final(self)@ == old(self)@.pull(polled).0
                    &&& is_outcome(r, old(self)@.pull(polled).1)
                },
            !old(self)@.wants_chunk() ==> {
                &&& final(self).source() == old(self).source()
                &&& final(self)@ == old(self)@.deliver().0
                &&& is_outcome(r, old(self)@.deliver().1)
            },
            old(self)@.state is Closed ==> r is EndOfSequence && final(self)@ == old(self)@,
            r is EndOfSequence ==> final(self)@.state is Closed,
    {
        proof {
            use_type_invariant(&*self);
        }
        let ghost before = self@;
        let ghost mut polled: Seq<Event> = Seq::empty();
        let ghost mut states: Seq<Option<S>> = seq![self.source()];
        let mut asking = self.wants_chunk();
        while asking
            invariant
                self@ == before.fill(polled),
                asked_through(states, polled),
                states.first() == old(self).source(),
                states.last() == self.source(),
                forall|i: int|
                    0 <= i < polled.len() ==> (#[trigger] before.fill(
                        polled.take(i),
                    )).wants_chunk(),
                forall|i: int| 0 <= i < polled.len() - 1 ==> !(#[trigger] polled[i] is Pending),
                asking ==> self@.wants_chunk() && (polled.len() > 0 ==> !(polled.last()
                    is Pending)),
                !asking ==> (polled.len() > 0 && polled.last() is Pending)
                    || !self@.wants_chunk(),
            decreases
                    (if asking {
                        self@.capacity - self@.buffer.len() + 1
                    } else {
                        0
                    }),
        {
            let event = self.ask();
            let pending = matches!(event, SourceEvent::Pending);
            let ghost answer = event@;
            let ghost earlier = polled;
            let ghost through = states;
            let _ = self.offer(event);
            proof {
                polled = earlier.push(answer);
                states = through.push(self.source());
                assert forall|i: int| 0 <= i < polled.len() implies #[trigger] answered(
                    states,
                    polled,
                    i,
                ) by {
                    if i < earlier.len() {
                        assert(answered(through, earlier, i));
                    }
                }
                assert(polled.drop_last() =~= earlier);
                assert forall|i: int| 0 <= i < polled.len() implies (#[trigger] before.fill(
                    polled.take(i),
                )).wants_chunk() by {
                    if i < earlier.len() {
                        assert(polled.take(i) =~= earlier.take(i));
                    }
                }
            }
            asking = !pending && self.wants_chunk();
        }
        proof {
            if polled.len() > 0 {
                assert(before.fill(polled.take(0)).wants_chunk());
            }
            assert(before.fill_round(polled));
            before.lemma_fill_appends(polled);
        }
        self.deliver()
    }

    /// Lets go of the source and of every buffered chunk, and closes the
    /// stream. A closed stream stays as it is.
    pub fn close(&mut self)
        ensures
            final(self)@ == (StreamModel {
                buffer: Seq::empty(),
                state: StreamState::Closed,
                capacity: old(self)@.capacity,
            }),
            final(self)@.wf(),
            final(self).source() is None,
            old(self)@.state is Closed ==> final(self)@ == old(self)@,
    {
        proof {
            use_type_invariant(&*self);
        }
        self.source = None;
        self.buf = VecDeque::new();
        self.state = StreamState::Closed;
        assert(self@.buffer =~= Seq::empty());
        assert(old(self)@.state is Closed ==> old(self)@.buffer =~= Seq::empty());
    }

    /// Whether the source may still be asked, or the stream has ended.
    pub fn state(&self) -> (r: StreamState)
        ensures
            r == self@.state,
    {
        self.state
    }

    /// The number of chunks that are buffered, never more than the bound.
    pub fn buffered(&self) -> (r: usize)
        ensures
            r == self@.buffer.len(),
            r <= self@.capacity,
    {
        proof {
            use_type_invariant(self);
        }
        self.buf.len()
    }

    /// The most chunks that the stream buffers.
    pub fn capacity(&self) -> (r: usize)
        ensures
            r == self@.capacity,
    {
        self.capacity
    }
}

} // verus!
