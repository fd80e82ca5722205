//! The stream controller as a state machine over plain values.
//!
//! A [`StreamModel`] is what a stream holds between two pulls: the chunks
//! that have arrived and not been handed out, whether the source may still
//! be asked, and the bound on the number of buffered chunks. One pull is a
//! fill round, in which the answers of the source are absorbed one by one,
//! followed by one delivery.

use vstd::prelude::*;

verus! {

/// Whether the source of a stream may still be asked for chunks.
#[derive(Clone, Copy, Debug, PartialEq, Eq, Structural)]
pub enum StreamState {
    /// The source may still produce chunks.
    Open,
    /// The source has ended or failed; it is not asked again.
    SourceExhausted,
    /// The source is exhausted and every buffered chunk has been handed out.
    Closed,
}

/// One answer of a chunk source, as plain values.
pub enum Event {
    /// A chunk of the response body.
    Chunk(Seq<u8>),
    /// The body has ended.
    EndOfBody,
    /// The transport has failed.
    SourceError,
    /// No chunk is available for now.
    Pending,
}

/// What one pull hands to the decoder.
pub enum Delivery {
    /// The oldest buffered chunk.
    Chunk(Seq<u8>),
    /// Nothing is buffered and the source may still produce.
    NotYetReady,
    /// Nothing is buffered and nothing will come.
    EndOfSequence,
}

/// The state of a stream between two pulls.
pub struct StreamModel {
    /// Chunks that arrived and were not handed out yet, oldest first.
    pub buffer: Seq<Seq<u8>>,
    pub state: StreamState,
    /// The most chunks that the buffer may hold.
    pub capacity: nat,
}

impl StreamModel {
    /// A stream that has just been opened.
    pub open spec fn opened(capacity: nat) -> StreamModel {
        StreamModel { buffer: Seq::empty(), state: StreamState::Open, capacity }
    }

    /// The buffer is within its bound, and a closed stream holds nothing.
    pub open spec fn wf(self) -> bool {
        &&& self.buffer.len() <= self.capacity
        &&& self.state is Closed ==> self.buffer.len() == 0
    }

    /// Whether a fill round asks the source once more.
    pub open spec fn wants_chunk(self) -> bool {
        self.state is Open && self.buffer.len() < self.capacity
    }

    /// The stream after one answer of the source, given while it wanted one.
    pub open spec fn absorb(self, event: Event) -> StreamModel {
        match event {
            Event::Chunk(bytes) => StreamModel { buffer: self.buffer.push(bytes), ..self },
            Event::EndOfBody | Event::SourceError => StreamModel {
                state: StreamState::SourceExhausted,
                ..self
            },
            Event::Pending => self,
        }
    }

    /// The stream after the answers `polled`, absorbed in order.
    pub open spec fn fill(self, polled: Seq<Event>) -> StreamModel
        decreases polled.len(),
    {
        if polled.len() == 0 {
            self
        } else {
            self.fill(polled.drop_last()).absorb(polled.last())
        }
    }

    /// `polled` is what one fill round takes from the source: every answer
    /// was asked for while the stream wanted a chunk, only the last may be
    /// `Pending`, and the round goes on until the stream wants no more or the
    /// source has nothing for now.
    pub open spec fn fill_round(self, polled: Seq<Event>) -> bool {
        &&& forall|i: int|
            0 <= i < polled.len() ==> (#[trigger] self.fill(polled.take(i))).wants_chunk()
        &&& forall|i: int| 0 <= i < polled.len() - 1 ==> !(#[trigger] polled[i] is Pending)
        &&& (polled.len() > 0 && polled.last() is Pending) || !self.fill(polled).wants_chunk()
    }

    /// The delivery that follows a fill round, and the stream after it.
    pub open spec fn deliver(self) -> (StreamModel, Delivery) {
        if self.buffer.len() > 0 {
            (
                StreamModel { buffer: self.buffer.drop_first(), ..self },
                Delivery::Chunk(self.buffer.first()),
            )
        } else if self.state is Open {
            (self, Delivery::NotYetReady)
        } else {
            (StreamModel { state: StreamState::Closed, ..self }, Delivery::EndOfSequence)
        }
    }

    /// One pull: a fill round that takes `polled` from the source, then a
    /// delivery.
    pub open spec fn pull(self, polled: Seq<Event>) -> (StreamModel, Delivery) {
        self.fill(polled).deliver()
    }
}

/// The chunks among some answers of the source, in order.
pub open spec fn chunks_of(polled: Seq<Event>) -> Seq<Seq<u8>>
    decreases polled.len(),
{
    if polled.len() == 0 {
        Seq::empty()
    } else {
        match polled.last() {
            Event::Chunk(bytes) => chunks_of(polled.drop_last()).push(bytes),
            _ => chunks_of(polled.drop_last()),
        }
    }
}

/// The chunk that a delivery hands out, if it hands one out.
pub open spec fn handed_out(delivery: Delivery) -> Seq<Seq<u8>> {
    match delivery {
        Delivery::Chunk(bytes) => seq![bytes],
        _ => Seq::empty(),
    }
}

/// The chunks that arrive in a run of pulls, in order.
pub open spec fn arrived(rounds: Seq<Seq<Event>>) -> Seq<Seq<u8>>
    decreases rounds.len(),
{
    if rounds.len() == 0 {
        Seq::empty()
    } else {
        arrived(rounds.drop_last()) + chunks_of(rounds.last())
    }
}

/// The chunks that some deliveries hand out, in order.
pub open spec fn delivered(deliveries: Seq<Delivery>) -> Seq<Seq<u8>>
    decreases deliveries.len(),
{
    if deliveries.len() == 0 {
        Seq::empty()
    } else {
        delivered(deliveries.drop_last()) + handed_out(deliveries.last())
    }
}

impl StreamModel {
    /// The stream after a run of pulls, of which the `i`-th takes
    /// `rounds[i]` from the source.
    pub open spec fn run(self, rounds: Seq<Seq<Event>>) -> StreamModel
        decreases rounds.len(),
    {
        if rounds.len() == 0 {
            self
        } else {
            self.run(rounds.drop_last()).pull(rounds.last()).0
        }
    }

    /// What a run of pulls delivers, pull by pull.
    pub open spec fn deliveries(self, rounds: Seq<Seq<Event>>) -> Seq<Delivery>
        decreases rounds.len(),
    {
        if rounds.len() == 0 {
            Seq::empty()
        } else {
            self.deliveries(rounds.drop_last()).push(
                self.run(rounds.drop_last()).pull(rounds.last()).1,
            )
        }
    }

    /// Each of `rounds` is what the fill round of its pull takes from the
    /// source.
    pub open spec fn fill_rounds(self, rounds: Seq<Seq<Event>>) -> bool {
        forall|i: int|
            0 <= i < rounds.len() ==> (#[trigger] self.run(rounds.take(i))).fill_round(rounds[i])
    }

    /// A fill round appends the chunks that arrive to the buffer, in the
    /// order of their arrival, and leaves the bound as it is.
    pub proof fn lemma_fill_appends(self, polled: Seq<Event>)
        ensures
            self.fill(polled).buffer == self.buffer + chunks_of(polled),
            self.fill(polled).capacity == self.capacity,
        decreases polled.len(),
    {
        if polled.len() > 0 {
            self.lemma_fill_appends(polled.drop_last());
        }
    }

    /// Bounded buffering, within a fill round: after each answer that the
    /// round takes from the source, the buffer holds no more chunks than the
    /// bound allows.
    pub proof fn lemma_bounded(self, polled: Seq<Event>, i: int)
        requires
            self.wf(),
            self.fill_round(polled),
            0 <= i <= polled.len(),
        ensures
            self.fill(polled.take(i)).wf(),
            self.fill(polled.take(i)).capacity == self.capacity,
            self.fill(polled.take(i)).buffer.len() <= self.capacity,
        decreases i,
    {
        if i > 0 {
            self.lemma_bounded(polled, i - 1);
            assert(polled.take(i).drop_last() =~= polled.take(i - 1));
        }
    }

    /// Bounded buffering, from pull to pull: a pull leaves the buffer
    /// within its bound, and the bound as it was.
    pub proof fn lemma_pull_bounded(self, polled: Seq<Event>)
        requires
            self.wf(),
            self.fill_round(polled),
        ensures
            self.pull(polled).0.wf(),
            self.pull(polled).0.capacity == self.capacity,
            self.pull(polled).0.buffer.len() <= self.capacity,
    {
        self.lemma_bounded(polled, polled.len() as int);
        assert(polled.take(polled.len() as int) =~= polled);
    }

    /// A pull keeps the order of arrival and loses nothing: the chunks that
    /// were buffered, followed by those that arrive in the pull, are the
    /// chunk that the pull hands out, if any, followed by those that stay
    /// buffered.
    pub proof fn lemma_pull_in_order(self, polled: Seq<Event>)
        ensures
            self.buffer + chunks_of(polled) == handed_out(self.pull(polled).1) + self.pull(
                polled,
            ).0.buffer,
    {
        self.lemma_fill_appends(polled);
    }

    /// A pull hands out the oldest chunk whenever one is buffered or
    /// arrives in its fill round. It says "not yet" only while the source
    /// may still produce, and ends the sequence only once the source is
    /// exhausted.
    pub proof fn lemma_pull_delivers(self, polled: Seq<Event>)
        requires
            self.wf(),
            self.fill_round(polled),
        ensures
            match self.pull(polled).1 {
                Delivery::Chunk(bytes) => (self.buffer + chunks_of(polled)).len() > 0 && bytes == (
                self.buffer + chunks_of(polled)).first(),
                Delivery::NotYetReady => (self.buffer + chunks_of(polled)).len() == 0 && self.pull(
                    polled,
                ).0.state is Open,
                Delivery::EndOfSequence => (self.buffer + chunks_of(polled)).len() == 0
                    && self.pull(polled).0.state is Closed,
            },
    {
        self.lemma_fill_appends(polled);
    }

    /// First in, first out: over a run of pulls, the chunks that were
    /// buffered at its start, followed by those that arrive in it, are the
    /// chunks that it hands out, followed by those that are buffered at its
    /// end. No chunk is lost, none comes twice, none overtakes another.
    pub proof fn lemma_fifo(self, rounds: Seq<Seq<Event>>)
        ensures
            self.buffer + arrived(rounds) == delivered(self.deliveries(rounds)) + self.run(
                rounds,
            ).buffer,
        decreases rounds.len(),
    {
        if rounds.len() > 0 {
            let earlier = rounds.drop_last();
            let before = self.run(earlier);
            self.lemma_fifo(earlier);
            before.lemma_pull_in_order(rounds.last());
            assert(self.deliveries(rounds).drop_last() =~= self.deliveries(earlier));
            assert(self.buffer + arrived(rounds) =~= (self.buffer + arrived(earlier)) + chunks_of(
                rounds.last(),
            ));
            assert((delivered(self.deliveries(earlier)) + before.buffer) + chunks_of(rounds.last())
                =~= delivered(self.deliveries(earlier)) + (before.buffer + chunks_of(
                rounds.last(),
            )));
        }
    }

    /// The order of delivery is the order of arrival: the `k`-th chunk that
    /// a run of pulls hands out is the `k`-th of the chunks that were
    /// buffered at its start, followed by those that arrive in it.
    pub proof fn lemma_kth_out_is_kth_in(self, rounds: Seq<Seq<Event>>, k: int)
        requires
            0 <= k < delivered(self.deliveries(rounds)).len(),
        ensures
            k < (self.buffer + arrived(rounds)).len(),
            delivered(self.deliveries(rounds))[k] == (self.buffer + arrived(rounds))[k],
    {
        self.lemma_fifo(rounds);
    }

    /// A run of pulls that starts out as a run of fill rounds stays one
    /// when its last pull is left out.
    proof fn lemma_fill_rounds_shorter(self, rounds: Seq<Seq<Event>>)
        requires
            self.fill_rounds(rounds),
            rounds.len() > 0,
        ensures
            self.fill_rounds(rounds.drop_last()),
            self.run(rounds.drop_last()).fill_round(rounds.last()),
    {
        let earlier = rounds.drop_last();
        assert forall|i: int| 0 <= i < earlier.len() implies (#[trigger] self.run(
            earlier.take(i),
        )).fill_round(earlier[i]) by {
            assert(earlier.take(i) =~= rounds.take(i));
        }
    }

    /// What a run of pulls makes of a stream whose source is exhausted.
    proof fn lemma_run_exhausted(self, rounds: Seq<Seq<Event>>)
        requires
            self.wf(),
            !(self.state is Open),
            self.fill_rounds(rounds),
        ensures
            self.deliveries(rounds).len() == rounds.len(),
            forall|i: int|
                0 <= i < rounds.len() ==> #[trigger] self.deliveries(rounds)[i] == if i
                    < self.buffer.len() {
                    Delivery::Chunk(self.buffer[i])
                } else {
                    Delivery::EndOfSequence
                },
            self.run(rounds) == (StreamModel {
                buffer: if rounds.len() <= self.buffer.len() {
                    self.buffer.skip(rounds.len() as int)
                } else {
                    Seq::empty()
                },
                state: if rounds.len() <= self.buffer.len() {
                    self.state
                } else {
                    StreamState::Closed
                },
                capacity: self.capacity,
            }),
        decreases rounds.len(),
    {
        if rounds.len() == 0 {
            assert(self.buffer.skip(0) =~= self.buffer);
        } else {
            let earlier = rounds.drop_last();
            let before = self.run(earlier);
            self.lemma_fill_rounds_shorter(rounds);
            self.lemma_run_exhausted(earlier);
            before.lemma_asking_is_wanting(rounds.last());
            assert(self.run(rounds).buffer =~= if rounds.len() <= self.buffer.len() {
                self.buffer.skip(rounds.len() as int)
            } else {
                Seq::empty()
            });
        }
    }

    /// Drain before close: once the source is exhausted with `k` chunks
    /// buffered, the next `k` pulls hand out those chunks, oldest first,
    /// and every pull after them ends the sequence.
    pub proof fn lemma_drain_before_close(self, rounds: Seq<Seq<Event>>, i: int)
        requires
            self.wf(),
            !(self.state is Open),
            self.fill_rounds(rounds),
            0 <= i < rounds.len(),
        ensures
            self.deliveries(rounds)[i] == if i < self.buffer.len() {
                Delivery::Chunk(self.buffer[i])
            } else {
                Delivery::EndOfSequence
            },
    {
        self.lemma_run_exhausted(rounds);
    }

    /// Idempotent termination: a pull that ends the sequence leaves the
    /// stream closed, and every pull of a closed stream ends the sequence
    /// again and changes nothing.
    pub proof fn lemma_end_is_final(self, polled: Seq<Event>, rounds: Seq<Seq<Event>>, i: int)
        requires
            self.wf(),
            self.fill_round(polled),
            self.pull(polled).1 is EndOfSequence,
            self.pull(polled).0.fill_rounds(rounds),
            0 <= i < rounds.len(),
        ensures
            self.pull(polled).0.state is Closed,
            self.pull(polled).0.deliveries(rounds)[i] is EndOfSequence,
            self.pull(polled).0.run(rounds) == self.pull(polled).0,
    {
        let ended = self.pull(polled).0;
        self.lemma_pull_bounded(polled);
        ended.lemma_run_exhausted(rounds);
        assert(ended.buffer =~= Seq::empty());
    }

    /// A fill round asks only a stream that wants a chunk.
    pub proof fn lemma_asking_is_wanting(self, polled: Seq<Event>)
        requires
            !self.wants_chunk(),
            self.fill_round(polled),
        ensures
            polled.len() == 0,
    {
        if polled.len() > 0 {
            assert(self.fill(polled.take(0)).wants_chunk());
        }
    }
}

} // verus!
