//! Streams over answers that were written down beforehand.
//!
//! A source that has its answers written down gives them in their order and
//! has nothing for now once they are used up. Over such a source every pull
//! is determined: [`StreamModel::taken`] says what its fill round takes.

use crate::stream::model::{Delivery, Event, StreamModel, StreamState};
use crate::stream::{answered, asked, asked_through, SourceEvent};
use std::collections::VecDeque;
use vstd::prelude::*;

verus! {

/// What is left of the answers `script` after the answers `polled` were
/// taken from them.
pub open spec fn left_of(script: Seq<Event>, polled: Seq<Event>) -> Seq<Event> {
    if polled.len() <= script.len() {
        script.skip(polled.len() as int)
    } else {
        Seq::empty()
    }
}

/// The answers of a body that delivers `chunks` and ends.
pub open spec fn body_of(chunks: Seq<Seq<u8>>) -> Seq<Event> {
    Seq::new(chunks.len(), |i: int| Event::Chunk(chunks[i])).push(Event::EndOfBody)
}

impl StreamModel {
    /// The answers that a fill round takes from a source that has the
    /// answers `script` written down and nothing for now after them.
    pub open spec fn taken(self, script: Seq<Event>) -> Seq<Event>
        decreases script.len(),
    {
        if !self.wants_chunk() {
            Seq::empty()
        } else if script.len() == 0 || script.first() is Pending {
            seq![Event::Pending]
        } else {
            seq![script.first()] + self.absorb(script.first()).taken(script.drop_first())
        }
    }

    /// Absorbing some answers is absorbing the first of them, then the
    /// others.
    pub proof fn lemma_fill_first(self, polled: Seq<Event>)
        requires
            polled.len() > 0,
        ensures
            self.fill(polled) == self.absorb(polled.first()).fill(polled.drop_first()),
        decreases polled.len(),
    {
        let rest = polled.drop_first();
        if polled.len() == 1 {
            assert(self.fill(polled.drop_last()) == self);
        } else {
            self.lemma_fill_first(polled.drop_last());
            assert(polled.drop_last().drop_first() =~= rest.drop_last());
        }
    }

    /// A fill round whose first answer is not "nothing for now" goes on, as
    /// a fill round of the stream that has absorbed that answer.
    proof fn lemma_fill_round_goes_on(self, polled: Seq<Event>)
        requires
            self.fill_round(polled),
            polled.len() > 0,
            !(polled.first() is Pending),
        ensures
            self.absorb(polled.first()).fill_round(polled.drop_first()),
    {
        let next = self.absorb(polled.first());
        let rest = polled.drop_first();
        assert forall|i: int| 0 <= i < rest.len() implies (#[trigger] next.fill(
            rest.take(i),
        )).wants_chunk() by {
            self.lemma_fill_first(polled.take(i + 1));
            assert(polled.take(i + 1).drop_first() =~= rest.take(i));
        }
        assert forall|i: int| 0 <= i < rest.len() - 1 implies !(#[trigger] rest[i] is Pending) by {
            assert(!(polled[i + 1] is Pending));
        }
        self.lemma_fill_first(polled);
    }

    /// Over answers that were written down beforehand, a fill round takes
    /// what [`StreamModel::taken`] says: where each of `polled` is the
    /// answer of `script` in its place, or "nothing for now" behind the end
    /// of `script`, a fill round takes no other answers than those.
    pub proof fn lemma_fill_round_is_taken(self, script: Seq<Event>, polled: Seq<Event>)
        requires
            self.fill_round(polled),
            forall|i: int|
                0 <= i < polled.len() ==> #[trigger] polled[i] == if i < script.len() {
                    script[i]
                } else {
                    Event::Pending
                },
        ensures
            polled == self.taken(script),
        decreases script.len(),
    {
        if !self.wants_chunk() {
            self.lemma_asking_is_wanting(polled);
        } else if script.len() > 0 && !(script.first() is Pending) {
            let rest = polled.drop_first();
            self.lemma_fill_round_goes_on(polled);
            assert forall|i: int| 0 <= i < rest.len() implies #[trigger] rest[i] == if i
                < script.drop_first().len() {
                script.drop_first()[i]
            } else {
                Event::Pending
            } by {
                assert(rest[i] == polled[i + 1]);
            }
            self.absorb(polled.first()).lemma_fill_round_is_taken(script.drop_first(), rest);
        }
    }

    /// The stream after `n` pulls over the answers `script`, what is left
    /// of the answers, and what the pulls deliver.
    pub open spec fn run_written(self, script: Seq<Event>, n: nat) -> (
        StreamModel,
        Seq<Event>,
        Seq<Delivery>,
    )
        decreases n,
    {
        if n == 0 {
            (self, script, Seq::empty())
        } else {
            let (before, left, delivered) = self.run_written(script, (n - 1) as nat);
            let polled = before.taken(left);
            (before.pull(polled).0, left_of(left, polled), delivered.push(before.pull(polled).1))
        }
    }

    /// What the fill round of an open stream makes of a body that delivers
    /// `chunks` and ends, where the chunks from `k` up to `j` are buffered
    /// and those from `j` on are yet to come: it buffers the chunks up to
    /// some `upto`, and either the buffer is full then or the body has
    /// ended.
    proof fn lemma_takes_chunks(self, chunks: Seq<Seq<u8>>, k: int, j: int) -> (upto: int)
        requires
            self.wf(),
            self.state is Open,
            0 <= k <= j <= chunks.len(),
            self.buffer == chunks.subrange(k, j),
        ensures
            j <= upto <= chunks.len(),
            upto - k <= self.capacity,
            self.fill(self.taken(body_of(chunks).skip(j))) == (StreamModel {
                buffer: chunks.subrange(k, upto),
                state: if upto == chunks.len() && (upto - k < self.capacity) {
                    StreamState::SourceExhausted
                } else {
                    StreamState::Open
                },
                capacity: self.capacity,
            }),
            upto - k == self.capacity || upto == chunks.len(),
            upto - k < self.capacity ==> left_of(
                body_of(chunks).skip(j),
                self.taken(body_of(chunks).skip(j)),
            ).len() == 0,
            upto - k == self.capacity ==> left_of(
                body_of(chunks).skip(j),
                self.taken(body_of(chunks).skip(j)),
            ) == body_of(chunks).skip(upto),
        decreases chunks.len() - j,
    {
        let script = body_of(chunks).skip(j);
        let polled = self.taken(script);
        if !self.wants_chunk() {
            j
        } else {
            let next = self.absorb(script.first());
            self.lemma_fill_first(polled);
            assert(polled.drop_first() =~= next.taken(script.drop_first()));
            assert(script.drop_first() =~= body_of(chunks).skip(j + 1));
            if j == chunks.len() {
                j
            } else {
                assert(next.buffer =~= chunks.subrange(k, j + 1));
                next.lemma_takes_chunks(chunks, k, j + 1)
            }
        }
    }

    /// Where a freshly opened stream stands after `k` pulls over a body
    /// that delivers `chunks` and ends: it has handed out the first `k`
    /// chunks, and buffers those from `k` up to the `j` that is returned.
    proof fn lemma_run_body(capacity: nat, chunks: Seq<Seq<u8>>, k: nat) -> (j: int)
        requires
            capacity >= 1,
            k <= chunks.len(),
        ensures
            k <= j <= chunks.len(),
            StreamModel::opened(capacity).run_written(body_of(chunks), k).0.buffer
                == chunks.subrange(k as int, j),
            StreamModel::opened(capacity).run_written(body_of(chunks), k).0.capacity == capacity,
            StreamModel::opened(capacity).run_written(body_of(chunks), k).0.wf(),
            ({
                let at_k = StreamModel::opened(capacity).run_written(body_of(chunks), k);
                let (now, left) = (at_k.0, at_k.1);
                ||| now.state is Open && left == body_of(chunks).skip(j)
                ||| now.state is SourceExhausted && j == chunks.len()
            }),
            StreamModel::opened(capacity).run_written(body_of(chunks), k).2 == Seq::new(
                k,
                |i: int| Delivery::Chunk(chunks[i]),
            ),
        decreases k,
    {
        if k == 0 {
            0
        } else {
            let at = (k - 1) as nat;
            let j = Self::lemma_run_body(capacity, chunks, at);
            let before = StreamModel::opened(capacity).run_written(body_of(chunks), at).0;
            if before.state is Open {
                before.lemma_takes_chunks(chunks, at as int, j)
            } else {
                j
            }
        }
    }

    /// First in, first out, from end to end: a freshly opened stream with
    /// room for at least one chunk, over a body that delivers any number of
    /// chunks and ends, hands out those chunks in their order, one with
    /// each pull, whatever the bound on its buffer; the pull after them ends
    /// the sequence and closes the stream.
    pub proof fn lemma_body_in_order(capacity: nat, chunks: Seq<Seq<u8>>)
        requires
            capacity >= 1,
        ensures
            StreamModel::opened(capacity).run_written(body_of(chunks), chunks.len() + 1).2
                == Seq::new(chunks.len(), |i: int| Delivery::Chunk(chunks[i])).push(
                Delivery::EndOfSequence,
            ),
            StreamModel::opened(capacity).run_written(body_of(chunks), chunks.len() + 1).0.state
                is Closed,
    {
        Self::lemma_run_body(capacity, chunks, chunks.len());
        let at_end = StreamModel::opened(capacity).run_written(body_of(chunks), chunks.len());
        let (before, left) = (at_end.0, at_end.1);
        if before.state is Open {
            assert(before.absorb(left.first()).taken(left.drop_first()) =~= Seq::empty());
            before.lemma_fill_first(before.taken(left));
        }
    }
}

/// The answer, written down beforehand, that comes `i`-th: once the answers
/// are used up there is nothing for now.
pub open spec fn written(answers: Seq<SourceEvent>, i: int) -> Event {
    if i < answers.len() {
        answers[i]@
    } else {
        Event::Pending
    }
}

/// The answers, written down beforehand, that are left after `n` of them
/// were given.
pub open spec fn left(answers: Seq<SourceEvent>, n: int) -> Seq<SourceEvent> {
    if n <= answers.len() {
        answers.skip(n)
    } else {
        Seq::empty()
    }
}

/// What answers that were written down come to, answer by answer.
proof fn lemma_written_steps(
    states: Seq<Option<VecDeque<SourceEvent>>>,
    polled: Seq<Event>,
    n: int,
)
    requires
        asked_through(states, polled),
        states.first() is Some,
        0 <= n <= polled.len(),
    ensures
        states[n] matches Some(now) && now@ == left(states.first()->0@, n),
        forall|i: int| 0 <= i < n ==> #[trigger] polled[i] == written(states.first()->0@, i),
    decreases n,
{
    if n > 0 {
        lemma_written_steps(states, polled, n - 1);
        assert(answered(states, polled, n - 1));
    }
}

/// Answers that were written down beforehand come in their order, and once
/// they are used up there is nothing for now.
pub proof fn lemma_written_answers(
    before: VecDeque<SourceEvent>,
    polled: Seq<Event>,
    after: Option<VecDeque<SourceEvent>>,
)
    requires
        asked(Some(before), polled, after),
    ensures
        after matches Some(rest) && rest@ == left(before@, polled.len() as int),
        forall|i: int| 0 <= i < polled.len() ==> #[trigger] polled[i] == written(before@, i),
{
    let states = choose|states: Seq<Option<VecDeque<SourceEvent>>>|
        #[trigger] asked_through(states, polled) && states.first() == Some(before) && states.last()
            == after;
    lemma_written_steps(states, polled, polled.len() as int);
}

/// What each of some answers says.
pub open spec fn events(answers: Seq<SourceEvent>) -> Seq<Event> {
    Seq::new(answers.len(), |i: int| answers[i]@)
}

/// Over answers that were written down beforehand a pull is determined:
/// its fill round takes what [`StreamModel::taken`] says, and the answers
/// after those are left.
pub proof fn lemma_pull_written(
    stream: StreamModel,
    before: VecDeque<SourceEvent>,
    polled: Seq<Event>,
    after: Option<VecDeque<SourceEvent>>,
)
    requires
        stream.fill_round(polled),
        asked(Some(before), polled, after),
    ensures
        polled == stream.taken(events(before@)),
        after matches Some(rest) && events(rest@) == left_of(events(before@), polled),
{
    lemma_written_answers(before, polled, after);
    assert forall|i: int| 0 <= i < polled.len() implies #[trigger] polled[i] == if i < events(
        before@,
    ).len() {
        events(before@)[i]
    } else {
        Event::Pending
    } by {
        assert(polled[i] == written(before@, i));
    }
    stream.lemma_fill_round_is_taken(events(before@), polled);
}

} // verus!
