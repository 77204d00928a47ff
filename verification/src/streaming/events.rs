//! The events of a stream, and the two ways to consume them: item by item,
//! or folded into one complete answer.

use crate::error::{DecodeError, DecodeErrorView, Error, ErrorView};
use crate::streaming::aggregate::{Aggregate, AggregateView, Aggregator, AggregatorView};
use crate::streaming::chunk::{decode_chunk, decoded, Chunk, ChunkView, WireShape};
use crate::text::same_text;
use vstd::prelude::*;

verus! {

/// What the event framer hands over: the payload of an event, or the
/// description of a fault in the framing or the transport.
#[derive(Clone, Debug, PartialEq, Eq)]
pub enum StreamEvent {
    Payload(String),
    Fault(String),
}

/// The view of a [`StreamEvent`].
pub enum EventView {
    Payload(Seq<char>),
    Fault(Seq<char>),
}

impl View for StreamEvent {
    type V = EventView;

    open spec fn view(&self) -> EventView {
        match self {
            StreamEvent::Payload(payload) => EventView::Payload(payload@),
            StreamEvent::Fault(detail) => EventView::Fault(detail@),
        }
    }
}

/// The views of a list of events, in order.
pub open spec fn event_views(events: Seq<StreamEvent>) -> Seq<EventView> {
    Seq::new(events.len(), |i: int| events[i]@)
}

/// Whether a payload is the marker that ends a stream.
pub open spec fn is_sentinel(payload: Seq<char>) -> bool {
    payload == "[DONE]"@
}

/// What an event means to a stream.
#[derive(Clone, Debug, PartialEq, Eq)]
pub enum Signal {
    /// The event carries a chunk.
    Chunk(Chunk),
    /// The event carries a payload that is no chunk.
    Undecodable(DecodeError),
    /// The stream is broken.
    Broken(String),
    /// The stream has ended as it should.
    End,
}

/// The view of a [`Signal`].
pub enum SignalView {
    Chunk(ChunkView),
    Undecodable(DecodeErrorView),
    Broken(Seq<char>),
    End,
}

impl View for Signal {
    type V = SignalView;

    open spec fn view(&self) -> SignalView {
        match self {
            Signal::Chunk(chunk) => SignalView::Chunk(chunk@),
            Signal::Undecodable(error) => SignalView::Undecodable(error@),
            Signal::Broken(detail) => SignalView::Broken(detail@),
            Signal::End => SignalView::End,
        }
    }
}

/// What an event means to a stream of the given shape. The sentinel ends
/// the stream and is not decoded; every other payload is.
pub open spec fn meaning(shape: WireShape, event: EventView) -> SignalView {
    match event {
        EventView::Fault(detail) => SignalView::Broken(detail),
        EventView::Payload(payload) => if is_sentinel(payload) {
            SignalView::End
        } else {
            match decoded(shape, payload) {
                Ok(chunk) => SignalView::Chunk(chunk),
                Err(error) => SignalView::Undecodable(error),
            }
        },
    }
}

/// Tells what an event means to a stream of the given shape.
pub fn interpret(shape: WireShape, event: &StreamEvent) -> (r: Signal)
    ensures
        r@ == meaning(shape, event@),
{
    match event {
        StreamEvent::Fault(detail) => Signal::Broken(detail.clone()),
        StreamEvent::Payload(payload) => if same_text(payload.as_str(), "[DONE]") {
            Signal::End
        } else {
            match decode_chunk(shape, payload.as_str()) {
                Ok(chunk) => Signal::Chunk(chunk),
                Err(error) => Signal::Undecodable(error),
            }
        },
    }
}

/// The error that a broken stream is reported with.
pub open spec fn broken_stream(detail: Seq<char>) -> ErrorView {
    ErrorView::Streaming("Event stream error: "@ + detail)
}

fn stream_error(detail: &str) -> (r: Error)
    ensures
        r@ == broken_stream(detail@),
{
    Error::Streaming("Event stream error: ".to_owned().concat(detail))
}

/// The state of a stream.
#[derive(Clone, Copy, Debug, PartialEq, Eq)]
pub enum Phase {
    /// Events are taken.
    Receiving,
    /// The stream has ended as it should.
    ClosedClean,
    /// The stream broke.
    ClosedWithError,
}

/// The view of an item of a stream.
pub open spec fn item_view(item: Result<Chunk, Error>) -> Result<ChunkView, ErrorView> {
    match item {
        Ok(chunk) => Ok(chunk@),
        Err(error) => Err(error@),
    }
}

/// The view of what one event yields.
pub open spec fn yield_view(item: Option<Result<Chunk, Error>>) -> Option<
    Result<ChunkView, ErrorView>,
> {
    match item {
        Some(item) => Some(item_view(item)),
        None => None,
    }
}

/// The views of a list of items, in order.
pub open spec fn item_views(items: Seq<Result<Chunk, Error>>) -> Seq<Result<ChunkView, ErrorView>> {
    Seq::new(items.len(), |i: int| item_view(items[i]))
}

/// One step of a stream that is consumed item by item: the phase after the
/// event, and the item that the event yields. A closed stream takes no
/// event. A chunk is an item, and so is a payload that is no chunk; neither
/// closes the stream. A fault is an item and closes the stream. The
/// sentinel closes the stream and is no item.
pub open spec fn step(shape: WireShape, phase: Phase, event: EventView) -> (
    Phase,
    Option<Result<ChunkView, ErrorView>>,
) {
    if phase != Phase::Receiving {
        (phase, None)
    } else {
        match meaning(shape, event) {
            SignalView::Chunk(chunk) => (Phase::Receiving, Some(Ok(chunk))),
            SignalView::Undecodable(error) => (
                Phase::Receiving,
                Some(Err(ErrorView::Serialization(error))),
            ),
            SignalView::Broken(detail) => (Phase::ClosedWithError, Some(Err(broken_stream(detail)))),
            SignalView::End => (Phase::ClosedClean, None),
        }
    }
}

/// The phase of a stream after the events, and the items that they yield.
pub open spec fn run(shape: WireShape, events: Seq<EventView>) -> (
    Phase,
    Seq<Result<ChunkView, ErrorView>>,
)
    decreases events.len(),
{
    if events.len() == 0 {
        (Phase::Receiving, Seq::empty())
    } else {
        let (phase, items) = run(shape, events.drop_last());
        let (next, item) = step(shape, phase, events.last());
        (
            next,
            match item {
                Some(item) => items.push(item),
                None => items,
            },
        )
    }
}

/// The items that a stream of the given events yields.
pub open spec fn live_items(shape: WireShape, events: Seq<EventView>) -> Seq<
    Result<ChunkView, ErrorView>,
> {
    run(shape, events).1
}

/// A stream that is consumed item by item.
#[derive(Clone, Debug, PartialEq, Eq)]
pub struct StreamDecoder {
    shape: WireShape,
    phase: Phase,
}

impl StreamDecoder {
    /// The shape of the chunks of the stream.
    pub closed spec fn spec_shape(self) -> WireShape {
        self.shape
    }

    /// The phase that the stream is in.
    pub closed spec fn spec_phase(self) -> Phase {
        self.phase
    }

    /// A stream that has taken no event yet.
    pub fn new(shape: WireShape) -> (r: StreamDecoder)
        ensures
            r.spec_shape() == shape,
            r.spec_phase() == Phase::Receiving,
    {
        StreamDecoder { shape, phase: Phase::Receiving }
    }

    /// The shape of the chunks of the stream.
    pub fn shape(&self) -> (r: WireShape)
        ensures
            r == self.spec_shape(),
    {
        self.shape
    }

    /// The phase that the stream is in.
    pub fn phase(&self) -> (r: Phase)
        ensures
            r == self.spec_phase(),
    {
        self.phase
    }

    /// Whether the stream takes no more events.
    pub fn is_closed(&self) -> (r: bool)
        ensures
            r == (self.spec_phase() != Phase::Receiving),
    {
        match self.phase {
            Phase::Receiving => false,
            _ => true,
        }
    }

    /// Takes the next event and hands out the item that it yields, if any.
    pub fn on_event(&mut self, event: &StreamEvent) -> (item: Option<Result<Chunk, Error>>)
        ensures
            final(self).spec_shape() == old(self).spec_shape(),
            (final(self).spec_phase(), yield_view(item)) == step(
                old(self).spec_shape(),
                old(self).spec_phase(),
                event@,
            ),
    {
        if self.is_closed() {
            return None;
        }
        match interpret(self.shape, event) {
            Signal::Chunk(chunk) => Some(Ok(chunk)),
            Signal::Undecodable(error) => Some(Err(Error::Serialization(error))),
            Signal::Broken(detail) => {
                self.phase = Phase::ClosedWithError;
                Some(Err(stream_error(detail.as_str())))
            },
            Signal::End => {
                self.phase = Phase::ClosedClean;
                None
            },
        }
    }

    /// Takes note that the transport has ended: a stream that was still
    /// receiving has ended as it should.
    pub fn on_end(&mut self)
        ensures
            final(self).spec_shape() == old(self).spec_shape(),
            final(self).spec_phase() == if old(self).spec_phase() == Phase::Receiving {
                Phase::ClosedClean
            } else {
                old(self).spec_phase()
            },
    {
        if !self.is_closed() {
            self.phase = Phase::ClosedClean;
        }
    }
}

/// The items that a list of events yields to a consumer that pulls them all.
pub fn drain(shape: WireShape, events: &Vec<StreamEvent>) -> (items: Vec<Result<Chunk, Error>>)
    ensures
        item_views(items@) == live_items(shape, event_views(events@)),
{
    let mut stream = StreamDecoder::new(shape);
    let mut items: Vec<Result<Chunk, Error>> = Vec::new();
    let mut i: usize = 0;
    proof {
        assert(event_views(events@).take(0).len() == 0);
        assert(item_views(items@) =~= Seq::empty());
    }
    while i < events.len()
        invariant
            i <= events.len(),
            stream.spec_shape() == shape,
            (stream.spec_phase(), item_views(items@)) == run(
                shape,
                event_views(events@).take(i as int),
            ),
        decreases events.len() - i,
    {
        proof {
            let next = event_views(events@).take(i + 1);
            assert(next.drop_last() =~= event_views(events@).take(i as int));
            assert(next.last() == events@[i as int]@);
        }
        match stream.on_event(&events[i]) {
            Some(item) => {
                proof {
                    assert(item_views(items@.push(item)) =~= item_views(items@).push(
                        item_view(item),
                    ));
                }
                items.push(item);
            },
            None => {},
        }
        i += 1;
    }
    proof {
        assert(event_views(events@).take(events.len() as int) =~= event_views(events@));
    }
    items
}

/// A stream that is folded into one complete answer.
pub struct Collector {
    shape: WireShape,
    fold: Aggregator,
    closed: Option<Result<(), Error>>,
}

/// The view of a [`Collector`].
pub struct CollectorView {
    pub shape: WireShape,
    pub fold: AggregatorView,
    /// How the stream has closed, if it has.
    pub closed: Option<Result<(), ErrorView>>,
}

impl View for Collector {
    type V = CollectorView;

    closed spec fn view(&self) -> CollectorView {
        CollectorView {
            shape: self.shape,
            fold: self.fold@,
            closed: match self.closed {
                None => None,
                Some(Ok(_)) => Some(Ok(())),
                Some(Err(error)) => Some(Err(error@)),
            },
        }
    }
}

impl CollectorView {
    /// The fold before any event.
    pub open spec fn start(shape: WireShape) -> CollectorView {
        CollectorView { shape, fold: AggregatorView::empty(), closed: None }
    }

    /// The fold after one more event. A closed fold takes no event. A chunk
    /// is taken in. The sentinel closes the fold. A payload that is no chunk
    /// and a fault close it with their error.
    pub open spec fn feed(self, event: EventView) -> CollectorView {
        if self.closed is Some {
            self
        } else {
            match meaning(self.shape, event) {
                SignalView::Chunk(chunk) => CollectorView { fold: self.fold.absorb(chunk), ..self },
                SignalView::Undecodable(error) => CollectorView {
                    closed: Some(Err(ErrorView::Serialization(error))),
                    ..self
                },
                SignalView::Broken(detail) => CollectorView {
                    closed: Some(Err(broken_stream(detail))),
                    ..self
                },
                SignalView::End => CollectorView { closed: Some(Ok(())), ..self },
            }
        }
    }

    /// The fold after all of the events.
    pub open spec fn after(shape: WireShape, events: Seq<EventView>) -> CollectorView
        decreases events.len(),
    {
        if events.len() == 0 {
            CollectorView::start(shape)
        } else {
            CollectorView::after(shape, events.drop_last()).feed(events.last())
        }
    }

    /// What the fold comes to: the error that it closed with, or else the
    /// aggregate of the chunks taken in.
    pub open spec fn outcome(self) -> Result<AggregateView, ErrorView> {
        match self.closed {
            Some(Err(error)) => Err(error),
            _ => Ok(self.fold.finished()),
        }
    }
}

/// What collecting a stream of the given events comes to.
pub open spec fn collected(shape: WireShape, events: Seq<EventView>) -> Result<
    AggregateView,
    ErrorView,
> {
    CollectorView::after(shape, events).outcome()
}

/// The view of what collecting comes to.
pub open spec fn outcome_view(outcome: Result<Aggregate, Error>) -> Result<
    AggregateView,
    ErrorView,
> {
    match outcome {
        Ok(aggregate) => Ok(aggregate@),
        Err(error) => Err(error@),
    }
}

impl Collector {
    /// A fold that has taken no event yet.
    pub fn new(shape: WireShape) -> (r: Collector)
        ensures
            r@ == CollectorView::start(shape),
    {
        Collector { shape, fold: Aggregator::new(), closed: None }
    }

    /// Whether the fold takes no more events.
    pub fn is_closed(&self) -> (r: bool)
        ensures
            r == (self@.closed is Some),
    {
        self.closed.is_some()
    }

    /// Takes the next event. Returns whether the fold is still open.
    pub fn feed(&mut self, event: &StreamEvent) -> (open: bool)
        ensures
            final(self)@ == old(self)@.feed(event@),
            open == (final(self)@.closed is None),
    {
        if self.closed.is_some() {
            return false;
        }
        match interpret(self.shape, event) {
            Signal::Chunk(chunk) => {
                self.fold.push(&chunk);
                true
            },
            Signal::Undecodable(error) => {
                self.closed = Some(Err(Error::Serialization(error)));
                false
            },
            Signal::Broken(detail) => {
                self.closed = Some(Err(stream_error(detail.as_str())));
                false
            },
            Signal::End => {
                self.closed = Some(Ok(()));
                false
            },
        }
    }

    /// Ends the fold, at the close of the stream or at the end of the
    /// transport.
    pub fn finish(self) -> (r: Result<Aggregate, Error>)
        ensures
            outcome_view(r) == self@.outcome(),
    {
        match self.closed {
            Some(Err(error)) => Err(error),
            _ => Ok(self.fold.finish()),
        }
    }
}

/// Folds a list of events into one complete answer: all or nothing.
pub fn collect(shape: WireShape, events: &Vec<StreamEvent>) -> (r: Result<Aggregate, Error>)
    ensures
        outcome_view(r) == collected(shape, event_views(events@)),
{
    let mut collector = Collector::new(shape);
    let mut i: usize = 0;
    proof {
        assert(event_views(events@).take(0).len() == 0);
    }
    while i < events.len()
        invariant
            i <= events.len(),
            collector@ == CollectorView::after(shape, event_views(events@).take(i as int)),
        decreases events.len() - i,
    {
        proof {
            let next = event_views(events@).take(i + 1);
            assert(next.drop_last() =~= event_views(events@).take(i as int));
            assert(next.last() == events@[i as int]@);
        }
        collector.feed(&events[i]);
        i += 1;
    }
    proof {
        assert(event_views(events@).take(events.len() as int) =~= event_views(events@));
    }
    collector.finish()
}

} // verus!
