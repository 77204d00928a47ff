//! Folding the chunks of a stream into one complete answer.

use crate::models::chat_completion;
use crate::streaming::chunk::{text_view, Chunk, ChunkView, DeltaView};
use crate::text::{concat, views};
use vstd::prelude::*;

verus! {

/// The first of the values that is present.
pub open spec fn first_present<T>(values: Seq<Option<T>>) -> Option<T>
    decreases values.len(),
{
    if values.len() == 0 {
        None
    } else {
        match first_present(values.drop_last()) {
            Some(value) => Some(value),
            None => values.last(),
        }
    }
}

/// The last of the values that is present.
pub open spec fn last_present<T>(values: Seq<Option<T>>) -> Option<T>
    decreases values.len(),
{
    if values.len() == 0 {
        None
    } else if values.last() is Some {
        values.last()
    } else {
        last_present(values.drop_last())
    }
}

/// The values that are present, in order.
pub open spec fn all_present<T>(values: Seq<Option<T>>) -> Seq<T>
    decreases values.len(),
{
    if values.len() == 0 {
        Seq::empty()
    } else {
        match values.last() {
            Some(value) => all_present(values.drop_last()).push(value),
            None => all_present(values.drop_last()),
        }
    }
}

/// The deltas of all chunks, in the order of arrival.
pub open spec fn all_deltas(chunks: Seq<ChunkView>) -> Seq<DeltaView>
    decreases chunks.len(),
{
    if chunks.len() == 0 {
        Seq::empty()
    } else {
        all_deltas(chunks.drop_last()) + chunks.last().choices
    }
}

/// The identifier of each chunk.
pub open spec fn ids(chunks: Seq<ChunkView>) -> Seq<Option<Seq<char>>> {
    Seq::new(chunks.len(), |i: int| chunks[i].id)
}

/// The creation time of each chunk.
pub open spec fn timestamps(chunks: Seq<ChunkView>) -> Seq<Option<i64>> {
    Seq::new(chunks.len(), |i: int| chunks[i].created)
}

/// The model name of each chunk.
pub open spec fn models(chunks: Seq<ChunkView>) -> Seq<Option<Seq<char>>> {
    Seq::new(chunks.len(), |i: int| chunks[i].model)
}

/// The fragment of each delta.
pub open spec fn contents(deltas: Seq<DeltaView>) -> Seq<Option<Seq<char>>> {
    Seq::new(deltas.len(), |i: int| deltas[i].content)
}

/// The terminal reason of each delta, in the vocabulary of a complete answer.
pub open spec fn reasons(deltas: Seq<DeltaView>) -> Seq<Option<chat_completion::FinishReason>> {
    Seq::new(
        deltas.len(),
        |i: int|
            match deltas[i].finish_reason {
                Some(reason) => Some(reason.spec_settled()),
                None => None,
            },
    )
}

/// The view of an [`Aggregate`].
pub struct AggregateView {
    pub id: Option<Seq<char>>,
    pub created: Option<i64>,
    pub model: Option<Seq<char>>,
    pub text: Seq<char>,
    pub finish_reason: Option<chat_completion::FinishReason>,
}

/// The aggregate of a stream of chunks: identifier, creation time and model
/// name from the first chunk that has each; the text of all fragments in the
/// order of arrival; the terminal reason that was reported last. All
/// deltas count as of one slot, whatever their index.
pub open spec fn aggregate(chunks: Seq<ChunkView>) -> AggregateView {
    AggregateView {
        id: first_present(ids(chunks)),
        created: first_present(timestamps(chunks)),
        model: first_present(models(chunks)),
        text: concat(all_present(contents(all_deltas(chunks)))),
        finish_reason: last_present(reasons(all_deltas(chunks))),
    }
}

/// What a stream of chunks amounts to.
#[derive(Clone, Debug, PartialEq, Eq)]
pub struct Aggregate {
    pub id: Option<String>,
    pub created: Option<i64>,
    pub model: Option<String>,
    pub text: String,
    pub finish_reason: Option<chat_completion::FinishReason>,
}

impl View for Aggregate {
    type V = AggregateView;

    open spec fn view(&self) -> AggregateView {
        AggregateView {
            id: text_view(self.id),
            created: self.created,
            model: text_view(self.model),
            text: self.text@,
            finish_reason: self.finish_reason,
        }
    }
}

/// The accumulators of a fold over chunks.
pub struct Aggregator {
    id: Option<String>,
    created: Option<i64>,
    model: Option<String>,
    fragments: Vec<String>,
    finish_reason: Option<chat_completion::FinishReason>,
}

/// The view of an [`Aggregator`].
pub struct AggregatorView {
    pub id: Option<Seq<char>>,
    pub created: Option<i64>,
    pub model: Option<Seq<char>>,
    pub fragments: Seq<Seq<char>>,
    pub finish_reason: Option<chat_completion::FinishReason>,
}

impl View for Aggregator {
    type V = AggregatorView;

    closed spec fn view(&self) -> AggregatorView {
        AggregatorView {
            id: text_view(self.id),
            created: self.created,
            model: text_view(self.model),
            fragments: views(self.fragments@),
            finish_reason: self.finish_reason,
        }
    }
}

/// The one that is present, the first where both are.
pub open spec fn or_else<T>(first: Option<T>, second: Option<T>) -> Option<T> {
    if first is Some {
        first
    } else {
        second
    }
}

impl AggregatorView {
    /// The accumulators before any chunk.
    pub open spec fn empty() -> AggregatorView {
        AggregatorView {
            id: None,
            created: None,
            model: None,
            fragments: Seq::empty(),
            finish_reason: None,
        }
    }

    /// The accumulators after one more chunk: an identifier, creation time
    /// or model name is taken only where none is known yet; the fragments
    /// are appended; a terminal reason replaces the one known.
    pub open spec fn absorb(self, chunk: ChunkView) -> AggregatorView {
        AggregatorView {
            id: or_else(self.id, chunk.id),
            created: or_else(self.created, chunk.created),
            model: or_else(self.model, chunk.model),
            fragments: self.fragments + all_present(contents(chunk.choices)),
            finish_reason: or_else(last_present(reasons(chunk.choices)), self.finish_reason),
        }
    }

    /// The accumulators after all of the chunks.
    pub open spec fn after(chunks: Seq<ChunkView>) -> AggregatorView
        decreases chunks.len(),
    {
        if chunks.len() == 0 {
            AggregatorView::empty()
        } else {
            AggregatorView::after(chunks.drop_last()).absorb(chunks.last())
        }
    }

    /// The aggregate that the accumulators amount to.
    pub open spec fn finished(self) -> AggregateView {
        AggregateView {
            id: self.id,
            created: self.created,
            model: self.model,
            text: concat(self.fragments),
            finish_reason: self.finish_reason,
        }
    }
}

/// The values present in one list followed by another are those of the one
/// followed by those of the other.
pub proof fn lemma_all_present_add<T>(a: Seq<Option<T>>, b: Seq<Option<T>>)
    ensures
        all_present(a + b) == all_present(a) + all_present(b),
    decreases b.len(),
{
    if b.len() == 0 {
        assert(a + b =~= a);
        assert(all_present(a) + all_present(b) =~= all_present(a));
    } else {
        lemma_all_present_add(a, b.drop_last());
        assert((a + b).drop_last() =~= a + b.drop_last());
        assert((a + b).last() == b.last());
        assert(all_present(a + b) =~= all_present(a) + all_present(b));
    }
}

/// The last value present in one list followed by another is that of the
/// other, and that of the one where the other has none.
pub proof fn lemma_last_present_add<T>(a: Seq<Option<T>>, b: Seq<Option<T>>)
    ensures
        last_present(a + b) == or_else(last_present(b), last_present(a)),
    decreases b.len(),
{
    if b.len() == 0 {
        assert(a + b =~= a);
    } else {
        lemma_last_present_add(a, b.drop_last());
        assert((a + b).drop_last() =~= a + b.drop_last());
        assert((a + b).last() == b.last());
    }
}

/// The first value present in one list followed by another is that of the
/// one, and that of the other where the one has none.
pub proof fn lemma_first_present_add<T>(a: Seq<Option<T>>, b: Seq<Option<T>>)
    ensures
        first_present(a + b) == or_else(first_present(a), first_present(b)),
    decreases b.len(),
{
    if b.len() == 0 {
        assert(a + b =~= a);
    } else {
        lemma_first_present_add(a, b.drop_last());
        assert((a + b).drop_last() =~= a + b.drop_last());
        assert((a + b).last() == b.last());
    }
}

/// The first value present is the one before which none is present; where
/// none is present at all, there is none.
pub proof fn lemma_first_present_at<T>(values: Seq<Option<T>>, i: int)
    requires
        0 <= i <= values.len(),
        forall|j: int| 0 <= j < i ==> (#[trigger] values[j]) is None,
        i < values.len() ==> values[i] is Some,
    ensures
        first_present(values) == if i < values.len() {
            values[i]
        } else {
            None
        },
    decreases values.len(),
{
    if values.len() > 0 {
        let front = values.drop_last();
        if i < values.len() - 1 {
            lemma_first_present_at(front, i);
        } else {
            lemma_first_present_at(front, values.len() - 1);
        }
    }
}

/// The last value present is the one after which none is present; where
/// none is present at all, there is none.
pub proof fn lemma_last_present_at<T>(values: Seq<Option<T>>, i: int)
    requires
        -1 <= i < values.len(),
        forall|j: int| i < j < values.len() ==> (#[trigger] values[j]) is None,
        0 <= i ==> values[i] is Some,
    ensures
        last_present(values) == if 0 <= i {
            values[i]
        } else {
            None
        },
    decreases values.len(),
{
    if values.len() > 0 && i < values.len() - 1 {
        lemma_last_present_at(values.drop_last(), i);
    }
}

/// The deltas of one stream followed by another are those of the one
/// followed by those of the other.
pub proof fn lemma_all_deltas_add(a: Seq<ChunkView>, b: Seq<ChunkView>)
    ensures
        all_deltas(a + b) == all_deltas(a) + all_deltas(b),
    decreases b.len(),
{
    if b.len() == 0 {
        assert(a + b =~= a);
        assert(all_deltas(a) + all_deltas(b) =~= all_deltas(a));
    } else {
        lemma_all_deltas_add(a, b.drop_last());
        assert((a + b).drop_last() =~= a + b.drop_last());
        assert((a + b).last() == b.last());
        assert(all_deltas(a + b) =~= all_deltas(a) + all_deltas(b));
    }
}

/// Folding chunk by chunk gives the aggregate of the stream: the
/// accumulators after a stream hold what `aggregate` says of it.
pub proof fn lemma_after_is_aggregate(chunks: Seq<ChunkView>)
    ensures
        AggregatorView::after(chunks).finished() == aggregate(chunks),
        AggregatorView::after(chunks).fragments == all_present(contents(all_deltas(chunks))),
    decreases chunks.len(),
{
    if chunks.len() == 0 {
        assert(ids(chunks) =~= Seq::empty());
        assert(timestamps(chunks) =~= Seq::empty());
        assert(models(chunks) =~= Seq::empty());
        assert(contents(all_deltas(chunks)) =~= Seq::empty());
        assert(reasons(all_deltas(chunks)) =~= Seq::empty());
    } else {
        let front = chunks.drop_last();
        let last = chunks.last();
        lemma_after_is_aggregate(front);
        assert(ids(chunks).drop_last() =~= ids(front));
        assert(timestamps(chunks).drop_last() =~= timestamps(front));
        assert(models(chunks).drop_last() =~= models(front));
        assert(contents(all_deltas(chunks)) =~= contents(all_deltas(front)) + contents(
            last.choices,
        ));
        assert(reasons(all_deltas(chunks)) =~= reasons(all_deltas(front)) + reasons(last.choices));
        lemma_all_present_add(contents(all_deltas(front)), contents(last.choices));
        lemma_last_present_add(reasons(all_deltas(front)), reasons(last.choices));
    }
}

impl Aggregator {
    /// The accumulators before any chunk: nothing is known.
    pub fn new() -> (r: Aggregator)
        ensures
            r@ == AggregatorView::empty(),
    {
        let r = Aggregator {
            id: None,
            created: None,
            model: None,
            fragments: Vec::new(),
            finish_reason: None,
        };
        assert(views(r.fragments@) =~= Seq::empty());
        r
    }

    /// Takes in one more chunk.
    pub fn push(&mut self, chunk: &Chunk)
        ensures
            final(self)@ == old(self)@.absorb(chunk@),
    {
        if self.id.is_none() {
            self.id = copy_text(&chunk.id);
        }
        if self.created.is_none() {
            self.created = chunk.created;
        }
        if self.model.is_none() {
            self.model = copy_text(&chunk.model);
        }
        let ghost deltas = chunk@.choices;
        let ghost before = views(old(self).fragments@);
        let ghost reason_before = old(self).finish_reason;
        let mut i: usize = 0;
        proof {
            assert(contents(deltas.take(0)) =~= Seq::empty());
            assert(reasons(deltas.take(0)) =~= Seq::empty());
            assert(before + all_present(contents(deltas.take(0))) =~= before);
        }
        while i < chunk.choices.len()
            invariant
                i <= chunk.choices.len(),
                deltas == chunk@.choices,
                deltas.len() == chunk.choices.len(),
                text_view(self.id) == or_else(text_view(old(self).id), chunk@.id),
                self.created == or_else(old(self).created, chunk@.created),
                text_view(self.model) == or_else(text_view(old(self).model), chunk@.model),
                views(self.fragments@) == before + all_present(contents(deltas.take(i as int))),
                self.finish_reason == or_else(
                    last_present(reasons(deltas.take(i as int))),
                    reason_before,
                ),
            decreases chunk.choices.len() - i,
        {
            let delta = &chunk.choices[i];
            proof {
                assert(deltas[i as int] == delta@);
                assert(contents(deltas.take(i + 1)).drop_last() =~= contents(
                    deltas.take(i as int),
                ));
                assert(reasons(deltas.take(i + 1)).drop_last() =~= reasons(deltas.take(i as int)));
            }
            match &delta.content {
                Some(content) => {
                    let ghost held = views(self.fragments@);
                    self.fragments.push(content.clone());
                    assert(views(self.fragments@) =~= held.push(content@));
                },
                None => {},
            }
            match delta.finish_reason {
                Some(reason) => {
                    self.finish_reason = Some(reason.settled());
                },
                None => {},
            }
            i += 1;
            proof {
                assert(views(self.fragments@) =~= before + all_present(
                    contents(deltas.take(i as int)),
                ));
            }
        }
        proof {
            assert(deltas.take(deltas.len() as int) =~= deltas);
        }
    }

    /// Ends the fold: the fragments become one text.
    pub fn finish(self) -> (r: Aggregate)
        ensures
            r@ == self@.finished(),
    {
        let mut text = String::new();
        let mut i: usize = 0;
        while i < self.fragments.len()
            invariant
                i <= self.fragments.len(),
                text@ == concat(views(self.fragments@).take(i as int)),
            decreases self.fragments.len() - i,
        {
            proof {
                let next = views(self.fragments@).take(i + 1);
                assert(next.drop_last() =~= views(self.fragments@).take(i as int));
                assert(next.last() == self.fragments@[i as int]@);
            }
            text.append(self.fragments[i].as_str());
            i += 1;
        }
        proof {
            assert(views(self.fragments@).take(self.fragments.len() as int) =~= views(
                self.fragments@,
            ));
        }
        Aggregate {
            id: self.id,
            created: self.created,
            model: self.model,
            text,
            finish_reason: self.finish_reason,
        }
    }
}

/// Copies an optional string.
fn copy_text(text: &Option<String>) -> (r: Option<String>)
    ensures
        text_view(r) == text_view(*text),
{
    match text {
        Some(text) => Some(text.clone()),
        None => None,
    }
}

/// The aggregate of a list of chunks.
pub fn aggregate_chunks(chunks: &Vec<Chunk>) -> (r: Aggregate)
    ensures
        r@ == aggregate(chunk_views(chunks@)),
{
    let mut state = Aggregator::new();
    let mut i: usize = 0;
    proof {
        assert(chunk_views(chunks@).take(0).len() == 0);
    }
    while i < chunks.len()
        invariant
            i <= chunks.len(),
            state@ == AggregatorView::after(chunk_views(chunks@).take(i as int)),
        decreases chunks.len() - i,
    {
        proof {
            let next = chunk_views(chunks@).take(i + 1);
            assert(next.drop_last() =~= chunk_views(chunks@).take(i as int));
            assert(next.last() == chunks@[i as int]@);
        }
        state.push(&chunks[i]);
        i += 1;
    }
    proof {
        assert(chunk_views(chunks@).take(chunks.len() as int) =~= chunk_views(chunks@));
        lemma_after_is_aggregate(chunk_views(chunks@));
    }
    state.finish()
}

/// The views of a list of chunks, in order.
pub open spec fn chunk_views(chunks: Seq<Chunk>) -> Seq<ChunkView> {
    Seq::new(chunks.len(), |i: int| chunks[i]@)
}

} // verus!
