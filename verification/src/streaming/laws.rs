//! What holds of every stream.

use crate::error::ErrorView;
use crate::streaming::aggregate::{
    aggregate, all_deltas, all_present, contents, ids, lemma_after_is_aggregate,
    lemma_all_deltas_add, lemma_all_present_add, lemma_first_present_add, lemma_first_present_at,
    lemma_last_present_add, lemma_last_present_at, models, or_else, reasons, timestamps,
    AggregateView, AggregatorView,
};
use crate::streaming::chunk::{ChunkView, WireShape};
use crate::streaming::events::{
    broken_stream, collected, live_items, meaning, run, step, CollectorView, EventView, Phase,
    SignalView,
};
use crate::text::{concat, lemma_concat_add};
use vstd::prelude::*;

verus! {

/// The event that carries the sentinel.
pub open spec fn sentinel() -> EventView {
    EventView::Payload("[DONE]"@)
}

/// Whether every one of the events carries a chunk.
pub open spec fn all_chunks(shape: WireShape, events: Seq<EventView>) -> bool {
    forall|i: int| 0 <= i < events.len() ==> meaning(shape, #[trigger] events[i]) is Chunk
}

/// The chunk that a signal carries.
pub open spec fn carried(signal: SignalView) -> ChunkView {
    match signal {
        SignalView::Chunk(chunk) => chunk,
        _ => arbitrary(),
    }
}

/// The chunks that the events carry, in the order of arrival.
pub open spec fn chunks_of(shape: WireShape, events: Seq<EventView>) -> Seq<ChunkView> {
    Seq::new(events.len(), |i: int| carried(meaning(shape, events[i])))
}

/// What collecting comes to when the chunks were taken in and then the
/// stream stopped with the given signal.
pub open spec fn stopped_with(chunks: Seq<ChunkView>, signal: SignalView) -> Result<
    AggregateView,
    ErrorView,
> {
    match signal {
        SignalView::Undecodable(error) => Err(ErrorView::Serialization(error)),
        SignalView::Broken(detail) => Err(broken_stream(detail)),
        _ => Ok(aggregate(chunks)),
    }
}

/// The text of a stream is the text of its fragments in the order of
/// arrival: the text of one stream followed by another is the text of the
/// one followed by the text of the other.
pub proof fn law_text_in_arrival_order(a: Seq<ChunkView>, b: Seq<ChunkView>)
    ensures
        aggregate(a + b).text == aggregate(a).text + aggregate(b).text,
{
    lemma_all_deltas_add(a, b);
    assert(contents(all_deltas(a) + all_deltas(b)) =~= contents(all_deltas(a)) + contents(
        all_deltas(b),
    ));
    lemma_all_present_add(contents(all_deltas(a)), contents(all_deltas(b)));
    lemma_concat_add(
        all_present(contents(all_deltas(a))),
        all_present(contents(all_deltas(b))),
    );
}

/// The first writer wins: identifier, creation time and model name of one
/// stream followed by another are those of the one, and those of the other
/// only where the one has none.
pub proof fn law_first_writer_wins(a: Seq<ChunkView>, b: Seq<ChunkView>)
    ensures
        aggregate(a + b).id == or_else(aggregate(a).id, aggregate(b).id),
        aggregate(a + b).created == or_else(aggregate(a).created, aggregate(b).created),
        aggregate(a + b).model == or_else(aggregate(a).model, aggregate(b).model),
{
    assert(ids(a + b) =~= ids(a) + ids(b));
    assert(timestamps(a + b) =~= timestamps(a) + timestamps(b));
    assert(models(a + b) =~= models(a) + models(b));
    lemma_first_present_add(ids(a), ids(b));
    lemma_first_present_add(timestamps(a), timestamps(b));
    lemma_first_present_add(models(a), models(b));
}

/// The identifier of a stream is that of the first chunk that has one.
pub proof fn law_identifier_of_first_chunk(chunks: Seq<ChunkView>, i: int)
    requires
        0 <= i < chunks.len(),
        chunks[i].id is Some,
        forall|j: int| 0 <= j < i ==> (#[trigger] chunks[j]).id is None,
    ensures
        aggregate(chunks).id == chunks[i].id,
{
    lemma_first_present_at(ids(chunks), i);
}

/// The creation time of a stream is that of the first chunk that has one.
pub proof fn law_creation_time_of_first_chunk(chunks: Seq<ChunkView>, i: int)
    requires
        0 <= i < chunks.len(),
        chunks[i].created is Some,
        forall|j: int| 0 <= j < i ==> (#[trigger] chunks[j]).created is None,
    ensures
        aggregate(chunks).created == chunks[i].created,
{
    lemma_first_present_at(timestamps(chunks), i);
}

/// The model name of a stream is that of the first chunk that has one.
pub proof fn law_model_of_first_chunk(chunks: Seq<ChunkView>, i: int)
    requires
        0 <= i < chunks.len(),
        chunks[i].model is Some,
        forall|j: int| 0 <= j < i ==> (#[trigger] chunks[j]).model is None,
    ensures
        aggregate(chunks).model == chunks[i].model,
{
    lemma_first_present_at(models(chunks), i);
}

/// The terminal reason of a stream is that of the last delta that has one,
/// in the order of arrival.
pub proof fn law_reason_of_last_delta(chunks: Seq<ChunkView>, i: int)
    requires
        0 <= i < all_deltas(chunks).len(),
        all_deltas(chunks)[i].finish_reason is Some,
        forall|j: int|
            i < j < all_deltas(chunks).len() ==> (#[trigger] all_deltas(
                chunks,
            )[j]).finish_reason is None,
    ensures
        aggregate(chunks).finish_reason == Some(
            all_deltas(chunks)[i].finish_reason->0.spec_settled(),
        ),
{
    lemma_last_present_at(reasons(all_deltas(chunks)), i);
}

/// The last writer wins: the terminal reason of one stream followed by
/// another is that of the other, and that of the one only where the other
/// has none.
pub proof fn law_last_writer_wins(a: Seq<ChunkView>, b: Seq<ChunkView>)
    ensures
        aggregate(a + b).finish_reason == or_else(
            aggregate(b).finish_reason,
            aggregate(a).finish_reason,
        ),
{
    lemma_all_deltas_add(a, b);
    assert(reasons(all_deltas(a) + all_deltas(b)) =~= reasons(all_deltas(a)) + reasons(
        all_deltas(b),
    ));
    lemma_last_present_add(reasons(all_deltas(a)), reasons(all_deltas(b)));
}

/// A stream without chunks amounts to nothing: no identifier, creation time,
/// model name or terminal reason, and the empty text.
pub proof fn law_empty_aggregate()
    ensures
        aggregate(Seq::empty()) == (AggregateView {
            id: None,
            created: None,
            model: None,
            text: Seq::empty(),
            finish_reason: None,
        }),
{
    lemma_after_is_aggregate(Seq::empty());
}

/// The sentinel is never decoded: whatever the decoder would make of it, it
/// means the end of the stream. To a stream that is receiving, it is no
/// item, and it closes the stream cleanly.
pub proof fn law_sentinel_is_not_decoded(shape: WireShape)
    ensures
        meaning(shape, sentinel()) == SignalView::End,
        step(shape, Phase::Receiving, sentinel()) == (Phase::ClosedClean, None::<Result<ChunkView, ErrorView>>),
{
}

/// A closed stream yields nothing more, whatever arrives.
pub proof fn law_closed_stream_is_silent(shape: WireShape, a: Seq<EventView>, b: Seq<EventView>)
    requires
        run(shape, a).0 != Phase::Receiving,
    ensures
        run(shape, a + b) == run(shape, a),
    decreases b.len(),
{
    if b.len() == 0 {
        assert(a + b =~= a);
    } else {
        law_closed_stream_is_silent(shape, a, b.drop_last());
        assert((a + b).drop_last() =~= a + b.drop_last());
        assert((a + b).last() == b.last());
    }
}

/// The sentinel never shows among the items, as a chunk or as an error, and
/// nothing shows after it: the items of a stream are those of the events
/// before its first sentinel.
pub proof fn law_sentinel_yields_no_item(shape: WireShape, a: Seq<EventView>, b: Seq<EventView>)
    ensures
        live_items(shape, a.push(sentinel()) + b) == live_items(shape, a),
        run(shape, a.push(sentinel()) + b).0 != Phase::Receiving,
{
    assert(a.push(sentinel()).drop_last() =~= a);
    law_closed_stream_is_silent(shape, a.push(sentinel()), b);
}

/// Whether a signal closes a stream.
pub open spec fn closes(signal: SignalView) -> bool {
    signal is End || signal is Broken
}

/// The item that a signal is handed out as.
pub open spec fn item_of(signal: SignalView) -> Result<ChunkView, ErrorView> {
    match signal {
        SignalView::Chunk(chunk) => Ok(chunk),
        SignalView::Undecodable(error) => Err(ErrorView::Serialization(error)),
        SignalView::Broken(detail) => Err(broken_stream(detail)),
        SignalView::End => arbitrary(),
    }
}

/// The items of the events, one for each, in the order of arrival.
pub open spec fn items_of(shape: WireShape, events: Seq<EventView>) -> Seq<
    Result<ChunkView, ErrorView>,
> {
    Seq::new(events.len(), |i: int| item_of(meaning(shape, events[i])))
}

/// While nothing closes the stream, every event yields its item.
proof fn lemma_open_stream(shape: WireShape, events: Seq<EventView>)
    requires
        forall|i: int| 0 <= i < events.len() ==> !closes(meaning(shape, #[trigger] events[i])),
    ensures
        run(shape, events) == (Phase::Receiving, items_of(shape, events)),
    decreases events.len(),
{
    if events.len() > 0 {
        let front = events.drop_last();
        assert forall|i: int| 0 <= i < front.len() implies !closes(
            meaning(shape, #[trigger] front[i]),
        ) by {
            assert(front[i] == events[i]);
        }
        lemma_open_stream(shape, front);
        assert(!closes(meaning(shape, events[events.len() - 1])));
        assert(run(shape, events).1 =~= items_of(shape, events));
    } else {
        assert(items_of(shape, events) =~= Seq::empty());
    }
}

/// The items of a stream come in the order of arrival, one for each event
/// up to the first that closes the stream: none for the sentinel, the error
/// for a fault. Nothing is reordered, and nothing comes after.
pub proof fn law_live_items_in_arrival_order(shape: WireShape, events: Seq<EventView>, k: int)
    requires
        0 <= k <= events.len(),
        forall|i: int| 0 <= i < k ==> !closes(meaning(shape, #[trigger] events[i])),
        k < events.len() ==> closes(meaning(shape, events[k])),
    ensures
        live_items(shape, events) == if k < events.len() && meaning(shape, events[k]) is Broken {
            items_of(shape, events.take(k + 1))
        } else {
            items_of(shape, events.take(k))
        },
        run(shape, events).0 == if k == events.len() {
            Phase::Receiving
        } else if meaning(shape, events[k]) is End {
            Phase::ClosedClean
        } else {
            Phase::ClosedWithError
        },
{
    let front = events.take(k);
    assert forall|i: int| 0 <= i < front.len() implies !closes(
        meaning(shape, #[trigger] front[i]),
    ) by {
        assert(front[i] == events[i]);
    }
    lemma_open_stream(shape, front);
    if k == events.len() {
        assert(front =~= events);
    } else {
        let upto = events.take(k + 1);
        assert(upto.drop_last() =~= front);
        assert(upto.last() == events[k]);
        if meaning(shape, events[k]) is Broken {
            assert(run(shape, upto).1 =~= items_of(shape, upto));
        }
        law_closed_stream_is_silent(shape, upto, events.skip(k + 1));
        assert(upto + events.skip(k + 1) =~= events);
    }
}

/// A closed fold takes in nothing more, whatever arrives.
pub proof fn law_closed_fold_is_deaf(shape: WireShape, a: Seq<EventView>, b: Seq<EventView>)
    requires
        CollectorView::after(shape, a).closed is Some,
    ensures
        CollectorView::after(shape, a + b) == CollectorView::after(shape, a),
    decreases b.len(),
{
    if b.len() == 0 {
        assert(a + b =~= a);
    } else {
        law_closed_fold_is_deaf(shape, a, b.drop_last());
        assert((a + b).drop_last() =~= a + b.drop_last());
        assert((a + b).last() == b.last());
    }
}

/// While chunks arrive, the fold stays open and holds what their aggregate
/// is made of.
pub proof fn law_fold_of_chunks(shape: WireShape, events: Seq<EventView>)
    requires
        all_chunks(shape, events),
    ensures
        CollectorView::after(shape, events) == (CollectorView {
            shape,
            fold: AggregatorView::after(chunks_of(shape, events)),
            closed: None,
        }),
    decreases events.len(),
{
    if events.len() > 0 {
        let front = events.drop_last();
        assert(all_chunks(shape, front)) by {
            assert forall|i: int| 0 <= i < front.len() implies meaning(
                shape,
                #[trigger] front[i],
            ) is Chunk by {
                assert(front[i] == events[i]);
            }
        }
        law_fold_of_chunks(shape, front);
        assert(meaning(shape, events[events.len() - 1]) is Chunk);
        assert(chunks_of(shape, events).drop_last() =~= chunks_of(shape, front));
    } else {
        assert(chunks_of(shape, events) =~= Seq::empty());
    }
}

/// Collecting goes by the first event that is no chunk. Where every event
/// is a chunk, or the first that is none is the sentinel, it comes to the
/// aggregate of the chunks before it, in the order of arrival. Where that
/// event is a payload that cannot be decoded, or a fault, it comes to that
/// error. What arrives later changes nothing.
pub proof fn law_collect_stops_at_first_stop(shape: WireShape, events: Seq<EventView>, k: int)
    requires
        0 <= k <= events.len(),
        all_chunks(shape, events.take(k)),
        k < events.len() ==> !(meaning(shape, events[k]) is Chunk),
    ensures
        collected(shape, events) == if k == events.len() {
            Ok(aggregate(chunks_of(shape, events)))
        } else {
            stopped_with(chunks_of(shape, events.take(k)), meaning(shape, events[k]))
        },
{
    let front = events.take(k);
    law_fold_of_chunks(shape, front);
    lemma_after_is_aggregate(chunks_of(shape, front));
    if k == events.len() {
        assert(front =~= events);
    } else {
        let upto = events.take(k + 1);
        assert(upto.drop_last() =~= front);
        assert(upto.last() == events[k]);
        assert(CollectorView::after(shape, upto).closed is Some);
        law_closed_fold_is_deaf(shape, upto, events.skip(k + 1));
        assert(upto + events.skip(k + 1) =~= events);
    }
}

/// Collecting a stream whose events all carry chunks, up to a sentinel,
/// gives the text of their fragments in the order of arrival, whatever
/// follows the sentinel.
pub proof fn law_collect_concatenates(shape: WireShape, events: Seq<EventView>, rest: Seq<EventView>)
    requires
        all_chunks(shape, events),
    ensures
        collected(shape, events.push(sentinel()) + rest) matches Ok(answer) && answer.text
            == concat(all_present(contents(all_deltas(chunks_of(shape, events))))),
{
    let whole = events.push(sentinel()) + rest;
    assert(whole.take(events.len() as int) =~= events);
    assert(whole[events.len() as int] == sentinel());
    law_collect_stops_at_first_stop(shape, whole, events.len() as int);
}

/// A fold that has seen no sentinel is open or has closed with an error.
proof fn lemma_no_clean_close(shape: WireShape, events: Seq<EventView>)
    requires
        forall|i: int| 0 <= i < events.len() ==> !(meaning(shape, #[trigger] events[i]) is End),
    ensures
        !(CollectorView::after(shape, events).closed matches Some(Ok(_))),
        CollectorView::after(shape, events).shape == shape,
    decreases events.len(),
{
    if events.len() > 0 {
        let front = events.drop_last();
        assert forall|i: int| 0 <= i < front.len() implies !(meaning(shape, #[trigger] front[i])
            is End) by {
            assert(front[i] == events[i]);
        }
        lemma_no_clean_close(shape, front);
        assert(!(meaning(shape, events[events.len() - 1]) is End));
    }
}

/// A payload that cannot be decoded makes collecting fail, whatever arrives
/// after it, unless the stream has ended before it.
pub proof fn law_decode_error_fails_collect(shape: WireShape, events: Seq<EventView>, k: int)
    requires
        0 <= k < events.len(),
        meaning(shape, events[k]) is Undecodable,
        forall|i: int| 0 <= i < k ==> !(meaning(shape, #[trigger] events[i]) is End),
    ensures
        collected(shape, events) is Err,
{
    let front = events.take(k);
    assert forall|i: int| 0 <= i < front.len() implies !(meaning(shape, #[trigger] front[i])
        is End) by {
        assert(front[i] == events[i]);
    }
    lemma_no_clean_close(shape, front);
    let upto = events.take(k + 1);
    assert(upto.drop_last() =~= front);
    assert(upto.last() == events[k]);
    let before = CollectorView::after(shape, front);
    assert(CollectorView::after(shape, upto) == before.feed(events[k]));
    assert(!(before.closed matches Some(Ok(_))) && before.shape == shape);
    assert(before.feed(events[k]).closed matches Some(Err(_)));
    law_closed_fold_is_deaf(shape, upto, events.skip(k + 1));
    assert(upto + events.skip(k + 1) =~= events);
}

/// What folding the items of a stream that is consumed item by item comes
/// to: the accumulators after all chunks, or the first error among the
/// items.
pub open spec fn fold_items(items: Seq<Result<ChunkView, ErrorView>>) -> Result<
    AggregatorView,
    ErrorView,
>
    decreases items.len(),
{
    if items.len() == 0 {
        Ok(AggregatorView::empty())
    } else {
        match fold_items(items.drop_last()) {
            Err(error) => Err(error),
            Ok(fold) => match items.last() {
                Ok(chunk) => Ok(fold.absorb(chunk)),
                Err(error) => Err(error),
            },
        }
    }
}

/// How the fold of a stream and its items go together.
spec fn in_step(shape: WireShape, events: Seq<EventView>) -> bool {
    let fold = CollectorView::after(shape, events);
    let (phase, items) = run(shape, events);
    &&& fold.shape == shape
    &&& match fold_items(items) {
        Err(error) => fold.closed == Some(Err::<(), _>(error)),
        Ok(state) => {
            &&& fold.fold == state
            &&& !(fold.closed matches Some(Err(_)))
            &&& fold.closed is None <==> phase == Phase::Receiving
        },
    }
}

proof fn lemma_in_step(shape: WireShape, events: Seq<EventView>)
    ensures
        in_step(shape, events),
    decreases events.len(),
{
    if events.len() > 0 {
        let front = events.drop_last();
        lemma_in_step(shape, front);
        let (phase, items) = run(shape, front);
        let (next, item) = step(shape, phase, events.last());
        assert(run(shape, events).0 == next);
        match item {
            Some(item) => {
                assert(run(shape, events).1 == items.push(item));
                assert(items.push(item).drop_last() =~= items);
                assert(items.push(item).last() == item);
            },
            None => {
                assert(run(shape, events).1 == items);
            },
        }
    }
}

/// Collecting is draining and folding: it comes to the first error among
/// the items that the stream yields, and to the aggregate of its chunks
/// where no item is an error.
pub proof fn law_collect_folds_live_items(shape: WireShape, events: Seq<EventView>)
    ensures
        collected(shape, events) == match fold_items(live_items(shape, events)) {
            Ok(fold) => Ok::<AggregateView, ErrorView>(fold.finished()),
            Err(error) => Err(error),
        },
{
    lemma_in_step(shape, events);
}

/// The sentinel closes the fold and adds nothing to it: collecting comes to
/// the same with the sentinel as at the end of the transport, whatever
/// arrived before the sentinel and whatever arrives after it.
pub proof fn law_sentinel_closes(shape: WireShape, a: Seq<EventView>, b: Seq<EventView>)
    ensures
        collected(shape, a.push(sentinel()) + b) == collected(shape, a),
{
    assert(a.push(sentinel()).drop_last() =~= a);
    law_closed_fold_is_deaf(shape, a.push(sentinel()), b);
}

} // verus!
