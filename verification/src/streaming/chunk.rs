//! Chunks: the incremental records of a streamed completion, and how a
//! payload is decoded into one.

use crate::error::{DecodeError, DecodeErrorView, Field};
use crate::models::chat_completion;
use crate::json::{
    as_items, document, documents, integer_member, is_object, parse, parsed, present, read_integer,
    read_member, read_text, text_member, Json,
};
use crate::text::same_text;
use vstd::prelude::*;

verus! {

/// The two shapes in which chunks come over the wire.
#[derive(Clone, Copy, Debug, PartialEq, Eq)]
pub enum WireShape {
    /// Chat completions: a choice holds its fragment in `delta.content`, and
    /// may end for any reason.
    Chat,
    /// Text completions: a choice holds its fragment in `text`, and ends by
    /// `stop` or `length` only.
    Text,
}

/// Why a slot stopped producing text, as a chunk reports it.
#[derive(Clone, Copy, Debug, PartialEq, Eq)]
pub enum FinishReason {
    Stop,
    Length,
    ToolCalls,
    ContentFilter,
}

/// What one chunk adds to one output slot.
#[derive(Clone, Debug, PartialEq, Eq)]
pub struct Delta {
    /// The slot, counted from zero.
    pub index: u32,
    /// The next fragment of text, if the chunk brings one.
    pub content: Option<String>,
    /// The reason the slot has ended, if the chunk reports one.
    pub finish_reason: Option<FinishReason>,
}

/// One incremental record of a streamed completion. An absent field means
/// that the chunk brings no news of it.
#[derive(Clone, Debug, PartialEq, Eq)]
pub struct Chunk {
    pub id: Option<String>,
    pub created: Option<i64>,
    pub model: Option<String>,
    pub choices: Vec<Delta>,
}

/// The view of a [`Delta`].
pub struct DeltaView {
    pub index: u32,
    pub content: Option<Seq<char>>,
    pub finish_reason: Option<FinishReason>,
}

/// The view of a [`Chunk`].
pub struct ChunkView {
    pub id: Option<Seq<char>>,
    pub created: Option<i64>,
    pub model: Option<Seq<char>>,
    pub choices: Seq<DeltaView>,
}

/// The characters of an optional string.
pub open spec fn text_view(text: Option<String>) -> Option<Seq<char>> {
    match text {
        Some(text) => Some(text@),
        None => None,
    }
}

/// The views of a list of deltas, in order.
pub open spec fn delta_views(deltas: Seq<Delta>) -> Seq<DeltaView> {
    Seq::new(deltas.len(), |i: int| deltas[i]@)
}

impl View for Delta {
    type V = DeltaView;

    open spec fn view(&self) -> DeltaView {
        DeltaView {
            index: self.index,
            content: text_view(self.content),
            finish_reason: self.finish_reason,
        }
    }
}

impl View for Chunk {
    type V = ChunkView;

    open spec fn view(&self) -> ChunkView {
        ChunkView {
            id: text_view(self.id),
            created: self.created,
            model: text_view(self.model),
            choices: delta_views(self.choices@),
        }
    }
}

/// The reason that a word of the wire vocabulary stands for, in a chunk of
/// the given shape. Words outside the vocabulary stand for none.
pub open spec fn reason_of(shape: WireShape, word: Seq<char>) -> Option<FinishReason> {
    if word == "stop"@ {
        Some(FinishReason::Stop)
    } else if word == "length"@ {
        Some(FinishReason::Length)
    } else if shape is Chat && word == "tool_calls"@ {
        Some(FinishReason::ToolCalls)
    } else if shape is Chat && word == "content_filter"@ {
        Some(FinishReason::ContentFilter)
    } else {
        None
    }
}

/// The fragment of text that a choice brings.
pub open spec fn fragment_of(shape: WireShape, choice: Json) -> Result<Option<Seq<char>>, Field> {
    match shape {
        WireShape::Chat => match present(choice, "delta"@) {
            None => Ok(None),
            Some(delta) => if delta is Object {
                match text_member(delta, "content"@) {
                    Ok(content) => Ok(content),
                    Err(_) => Err(Field::Content),
                }
            } else {
                Err(Field::Delta)
            },
        },
        WireShape::Text => match text_member(choice, "text"@) {
            Ok(text) => Ok(text),
            Err(_) => Err(Field::Text),
        },
    }
}

/// The terminal reason that a choice reports.
pub open spec fn finish_of(shape: WireShape, choice: Json) -> Result<Option<FinishReason>, Field> {
    match text_member(choice, "finish_reason"@) {
        Ok(None) => Ok(None),
        Ok(Some(word)) => match reason_of(shape, word) {
            Some(reason) => Ok(Some(reason)),
            None => Err(Field::FinishReason),
        },
        Err(_) => Err(Field::FinishReason),
    }
}

/// The slot that a choice is for.
pub open spec fn index_of(choice: Json) -> Result<u32, Field> {
    match integer_member(choice, "index"@) {
        Ok(Some(n)) => if 0 <= n <= u32::MAX {
            Ok(n as u32)
        } else {
            Err(Field::Index)
        },
        _ => Err(Field::Index),
    }
}

/// The delta that an element of `choices` stands for, or the first field
/// that is not as it should be: the element has to be an object with an
/// `index`; then come the fragment and the terminal reason.
pub open spec fn delta_of(shape: WireShape, choice: Json) -> Result<DeltaView, Field> {
    if !(choice is Object) {
        Err(Field::Choice)
    } else {
        match index_of(choice) {
            Err(field) => Err(field),
            Ok(index) => match fragment_of(shape, choice) {
                Err(field) => Err(field),
                Ok(content) => match finish_of(shape, choice) {
                    Err(field) => Err(field),
                    Ok(finish_reason) => Ok(DeltaView { index, content, finish_reason }),
                },
            },
        }
    }
}

/// The deltas that the elements of `choices` stand for, in order, or the
/// fault of the first element that has one.
pub open spec fn deltas_of(shape: WireShape, items: Seq<Json>) -> Result<Seq<DeltaView>, Field>
    decreases items.len(),
{
    if items.len() == 0 {
        Ok(Seq::empty())
    } else {
        match deltas_of(shape, items.drop_last()) {
            Err(field) => Err(field),
            Ok(deltas) => match delta_of(shape, items.last()) {
                Err(field) => Err(field),
                Ok(delta) => Ok(deltas.push(delta)),
            },
        }
    }
}

/// The deltas of a chunk record: those of its `choices`, none where the
/// record has no such member.
pub open spec fn choices_of(shape: WireShape, doc: Json) -> Result<Seq<DeltaView>, Field> {
    match present(doc, "choices"@) {
        None => Ok(Seq::empty()),
        Some(Json::Array(items)) => deltas_of(shape, items),
        Some(_) => Err(Field::Choices),
    }
}

/// The chunk that a JSON document stands for, or the first field that is
/// not as it should be. The fields are looked at in the order `id`,
/// `created`, `model`, `choices`; members of other names are ignored.
pub open spec fn chunk_of(shape: WireShape, doc: Json) -> Result<ChunkView, Field> {
    if !(doc is Object) {
        Err(Field::Chunk)
    } else {
        match text_member(doc, "id"@) {
            Err(_) => Err(Field::Id),
            Ok(id) => match integer_member(doc, "created"@) {
                Err(_) => Err(Field::Created),
                Ok(created) => match text_member(doc, "model"@) {
                    Err(_) => Err(Field::Model),
                    Ok(model) => match choices_of(shape, doc) {
                        Err(field) => Err(field),
                        Ok(choices) => Ok(ChunkView { id, created, model, choices }),
                    },
                },
            },
        }
    }
}

/// The chunk that a payload stands for, or why it stands for none.
pub open spec fn decoded(shape: WireShape, payload: Seq<char>) -> Result<
    ChunkView,
    DecodeErrorView,
> {
    match parsed(payload) {
        Err(fault) => Err(DecodeErrorView::Json(fault)),
        Ok(doc) => match chunk_of(shape, doc) {
            Ok(chunk) => Ok(chunk),
            Err(field) => Err(DecodeErrorView::Schema(field)),
        },
    }
}

impl FinishReason {
    /// The word that stands for the reason on the wire.
    pub open spec fn spec_wire_name(self) -> Seq<char> {
        match self {
            FinishReason::Stop => "stop"@,
            FinishReason::Length => "length"@,
            FinishReason::ToolCalls => "tool_calls"@,
            FinishReason::ContentFilter => "content_filter"@,
        }
    }

    /// The word that stands for the reason on the wire.
    pub fn wire_name(self) -> (r: &'static str)
        ensures
            r@ == self.spec_wire_name(),
    {
        match self {
            FinishReason::Stop => "stop",
            FinishReason::Length => "length",
            FinishReason::ToolCalls => "tool_calls",
            FinishReason::ContentFilter => "content_filter",
        }
    }

    /// The same reason in the vocabulary of a complete answer.
    pub open spec fn spec_settled(self) -> chat_completion::FinishReason {
        match self {
            FinishReason::Stop => chat_completion::FinishReason::Stop,
            FinishReason::Length => chat_completion::FinishReason::Length,
            FinishReason::ToolCalls => chat_completion::FinishReason::ToolCalls,
            FinishReason::ContentFilter => chat_completion::FinishReason::ContentFilter,
        }
    }

    /// The same reason in the vocabulary of a complete answer.
    pub fn settled(self) -> (r: chat_completion::FinishReason)
        ensures
            r == self.spec_settled(),
    {
        match self {
            FinishReason::Stop => chat_completion::FinishReason::Stop,
            FinishReason::Length => chat_completion::FinishReason::Length,
            FinishReason::ToolCalls => chat_completion::FinishReason::ToolCalls,
            FinishReason::ContentFilter => chat_completion::FinishReason::ContentFilter,
        }
    }

    /// Reads a word of the wire vocabulary of the given shape.
    pub fn from_wire(shape: WireShape, word: &str) -> (r: Option<FinishReason>)
        ensures
            r == reason_of(shape, word@),
    {
        if same_text(word, "stop") {
            Some(FinishReason::Stop)
        } else if same_text(word, "length") {
            Some(FinishReason::Length)
        } else {
            match shape {
                WireShape::Chat => if same_text(word, "tool_calls") {
                    Some(FinishReason::ToolCalls)
                } else if same_text(word, "content_filter") {
                    Some(FinishReason::ContentFilter)
                } else {
                    None
                },
                WireShape::Text => None,
            }
        }
    }
}

fn read_fragment(shape: WireShape, choice: &serde_json::Value) -> (r: Result<Option<String>, Field>)
    ensures
        match r {
            Ok(content) => fragment_of(shape, document(*choice)) == Ok::<_, Field>(
                text_view(content),
            ),
            Err(field) => fragment_of(shape, document(*choice)) == Err::<Option<Seq<char>>, _>(
                field,
            ),
        },
{
    match shape {
        WireShape::Chat => match read_member(choice, "delta") {
            None => Ok(None),
            Some(delta) => if is_object(delta) {
                match read_text(delta, "content") {
                    Ok(content) => Ok(content),
                    Err(_) => Err(Field::Content),
                }
            } else {
                Err(Field::Delta)
            },
        },
        WireShape::Text => match read_text(choice, "text") {
            Ok(text) => Ok(text),
            Err(_) => Err(Field::Text),
        },
    }
}

fn read_finish(shape: WireShape, choice: &serde_json::Value) -> (r: Result<
    Option<FinishReason>,
    Field,
>)
    ensures
        r == finish_of(shape, document(*choice)),
{
    match read_text(choice, "finish_reason") {
        Ok(None) => Ok(None),
        Ok(Some(word)) => match FinishReason::from_wire(shape, word.as_str()) {
            Some(reason) => Ok(Some(reason)),
            None => Err(Field::FinishReason),
        },
        Err(_) => Err(Field::FinishReason),
    }
}

fn read_index(choice: &serde_json::Value) -> (r: Result<u32, Field>)
    ensures
        r == index_of(document(*choice)),
{
    match read_integer(choice, "index") {
        Ok(Some(n)) => if 0 <= n && n <= 0xffff_ffff {
            Ok(n as u32)
        } else {
            Err(Field::Index)
        },
        _ => Err(Field::Index),
    }
}

/// Decodes one element of `choices`.
pub fn delta_from_value(shape: WireShape, choice: &serde_json::Value) -> (r: Result<Delta, Field>)
    ensures
        match r {
            Ok(delta) => delta_of(shape, document(*choice)) == Ok::<_, Field>(delta@),
            Err(field) => delta_of(shape, document(*choice)) == Err::<DeltaView, _>(field),
        },
{
    if !is_object(choice) {
        return Err(Field::Choice);
    }
    let index = match read_index(choice) {
        Ok(index) => index,
        Err(field) => {
            return Err(field);
        },
    };
    let content = match read_fragment(shape, choice) {
        Ok(content) => content,
        Err(field) => {
            return Err(field);
        },
    };
    let finish_reason = match read_finish(shape, choice) {
        Ok(finish_reason) => finish_reason,
        Err(field) => {
            return Err(field);
        },
    };
    Ok(Delta { index, content, finish_reason })
}

fn deltas_from_values(shape: WireShape, items: &Vec<serde_json::Value>) -> (r: Result<
    Vec<Delta>,
    Field,
>)
    ensures
        match r {
            Ok(deltas) => deltas_of(shape, documents(items@)) == Ok::<_, Field>(
                delta_views(deltas@),
            ),
            Err(field) => deltas_of(shape, documents(items@)) == Err::<Seq<DeltaView>, _>(field),
        },
{
    let mut deltas: Vec<Delta> = Vec::new();
    let mut i: usize = 0;
    proof {
        assert(documents(items@).take(0).len() == 0);
        assert(delta_views(deltas@) =~= Seq::<DeltaView>::empty());
    }
    while i < items.len()
        invariant
            i <= items.len(),
            deltas_of(shape, documents(items@).take(i as int)) == Ok::<_, Field>(
                delta_views(deltas@),
            ),
        decreases items.len() - i,
    {
        proof {
            let next = documents(items@).take(i + 1);
            assert(next.drop_last() =~= documents(items@).take(i as int));
            assert(next.last() == document(items@[i as int]));
        }
        match delta_from_value(shape, &items[i]) {
            Ok(delta) => {
                proof {
                    assert(delta_views(deltas@.push(delta)) =~= delta_views(deltas@).push(delta@));
                }
                deltas.push(delta);
            },
            Err(field) => {
                proof {
                    lemma_fault_stays(shape, documents(items@), i + 1);
                }
                return Err(field);
            },
        }
        i += 1;
    }
    proof {
        assert(documents(items@).take(items.len() as int) =~= documents(items@));
    }
    Ok(deltas)
}

/// A fault among the first elements is the fault of the whole list.
proof fn lemma_fault_stays(shape: WireShape, items: Seq<Json>, n: int)
    requires
        0 <= n <= items.len(),
        deltas_of(shape, items.take(n)) is Err,
    ensures
        deltas_of(shape, items) == deltas_of(shape, items.take(n)),
    decreases items.len() - n,
{
    if n == items.len() {
        assert(items.take(n) =~= items);
    } else {
        assert(items.take(n + 1).drop_last() =~= items.take(n));
        lemma_fault_stays(shape, items, n + 1);
    }
}

/// Decodes a chunk from a JSON value.
pub fn chunk_from_value(shape: WireShape, value: &serde_json::Value) -> (r: Result<Chunk, Field>)
    ensures
        match r {
            Ok(chunk) => chunk_of(shape, document(*value)) == Ok::<_, Field>(chunk@),
            Err(field) => chunk_of(shape, document(*value)) == Err::<ChunkView, _>(field),
        },
{
    if !is_object(value) {
        return Err(Field::Chunk);
    }
    let id = match read_text(value, "id") {
        Ok(id) => id,
        Err(_) => {
            return Err(Field::Id);
        },
    };
    let created = match read_integer(value, "created") {
        Ok(created) => created,
        Err(_) => {
            return Err(Field::Created);
        },
    };
    let model = match read_text(value, "model") {
        Ok(model) => model,
        Err(_) => {
            return Err(Field::Model);
        },
    };
    let choices = match read_member(value, "choices") {
        None => Vec::new(),
        Some(list) => match as_items(list) {
            None => {
                return Err(Field::Choices);
            },
            Some(items) => match deltas_from_values(shape, items) {
                Ok(deltas) => deltas,
                Err(field) => {
                    return Err(field);
                },
            },
        },
    };
    proof {
        assert(delta_views(Seq::<Delta>::empty()) =~= Seq::<DeltaView>::empty());
    }
    Ok(Chunk { id, created, model, choices })
}

/// Decodes a payload into a chunk of the given shape: the payload has to be
/// a JSON object whose members `id`, `created`, `model` and `choices`, where
/// it has them, are of their types.
pub fn decode_chunk(shape: WireShape, payload: &str) -> (r: Result<Chunk, DecodeError>)
    ensures
        match r {
            Ok(chunk) => decoded(shape, payload@) == Ok::<_, DecodeErrorView>(chunk@),
            Err(error) => decoded(shape, payload@) == Err::<ChunkView, _>(error@),
        },
{
    match parse(payload) {
        Err(fault) => Err(DecodeError::Json(fault)),
        Ok(value) => match chunk_from_value(shape, &value) {
            Ok(chunk) => Ok(chunk),
            Err(field) => Err(DecodeError::Schema(field)),
        },
    }
}

} // verus!
