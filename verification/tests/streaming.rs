use cerebras_rs::chat_completion;
use cerebras_rs::chat_message::Role;
use cerebras_rs::error::{DecodeError, Field};
use cerebras_rs::streaming::{
    aggregate_chunks, collect, collect_chat_completion, collect_completion, decode_chunk, drain,
    interpret, Aggregate, Aggregator, Chunk, Collector, Delta, FinishReason, Phase, Signal,
    StreamDecoder, StreamEvent, WireShape,
};
use cerebras_rs::Error;

fn payload(text: &str) -> StreamEvent {
    StreamEvent::Payload(text.to_string())
}

fn done() -> StreamEvent {
    payload("[DONE]")
}

fn chat(fragment: &str) -> StreamEvent {
    payload(&format!(
        "{{\"choices\":[{{\"index\":0,\"delta\":{{\"content\":\"{}\"}}}}]}}",
        fragment
    ))
}

fn empty_aggregate() -> Aggregate {
    Aggregate {
        id: None,
        created: None,
        model: None,
        text: String::new(),
        finish_reason: None,
    }
}

#[test]
fn collect_concatenates_fragments_in_arrival_order() {
    let events = vec![chat("Hel"), chat("lo"), chat(" world"), done()];
    let aggregate = collect(WireShape::Chat, &events).unwrap();
    assert_eq!(aggregate.text, "Hello world");
}

#[test]
fn collect_keeps_order_across_choices_of_one_chunk() {
    let events = vec![
        payload(
            "{\"choices\":[{\"index\":1,\"delta\":{\"content\":\"b\"}},{\"index\":0,\"delta\":{\"content\":\"a\"}}]}",
        ),
        chat("c"),
        done(),
    ];
    let aggregate = collect(WireShape::Chat, &events).unwrap();
    assert_eq!(aggregate.text, "bac");
}

#[test]
fn first_identifier_wins() {
    let events = vec![
        payload("{\"id\":\"abc\",\"model\":\"m1\",\"created\":10}"),
        payload("{\"id\":\"xyz\",\"model\":\"m2\",\"created\":20}"),
        done(),
    ];
    let aggregate = collect(WireShape::Chat, &events).unwrap();
    assert_eq!(aggregate.id, Some("abc".to_string()));
    assert_eq!(aggregate.model, Some("m1".to_string()));
    assert_eq!(aggregate.created, Some(10));
}

#[test]
fn absent_field_does_not_overwrite() {
    let events = vec![
        payload("{\"id\":\"abc\"}"),
        payload("{\"model\":\"m\"}"),
        payload("{\"id\":null,\"created\":5}"),
        done(),
    ];
    let aggregate = collect(WireShape::Chat, &events).unwrap();
    assert_eq!(aggregate.id, Some("abc".to_string()));
    assert_eq!(aggregate.model, Some("m".to_string()));
    assert_eq!(aggregate.created, Some(5));
}

#[test]
fn last_reason_wins() {
    let events = vec![
        payload("{\"choices\":[{\"index\":0,\"finish_reason\":\"length\"}]}"),
        payload("{\"choices\":[{\"index\":0,\"finish_reason\":\"stop\"}]}"),
        done(),
    ];
    let aggregate = collect(WireShape::Chat, &events).unwrap();
    assert_eq!(
        aggregate.finish_reason,
        Some(chat_completion::FinishReason::Stop)
    );
}

#[test]
fn absent_reason_does_not_overwrite() {
    let events = vec![
        payload("{\"choices\":[{\"index\":0,\"finish_reason\":\"tool_calls\"}]}"),
        chat("x"),
    ];
    let aggregate = collect(WireShape::Chat, &events).unwrap();
    assert_eq!(
        aggregate.finish_reason,
        Some(chat_completion::FinishReason::ToolCalls)
    );
    assert_eq!(aggregate.text, "x");
}

#[test]
fn sentinel_is_neither_chunk_nor_error() {
    assert_eq!(interpret(WireShape::Chat, &done()), Signal::End);
    assert_eq!(interpret(WireShape::Text, &done()), Signal::End);
    let items = drain(WireShape::Chat, &vec![chat("a"), done()]);
    assert_eq!(items.len(), 1);
    assert!(items[0].is_ok());
}

#[test]
fn payload_close_to_sentinel_is_decoded() {
    for text in ["[DONE] ", " [DONE]", "[done]", "[DONE", "DONE"] {
        match interpret(WireShape::Chat, &payload(text)) {
            Signal::Undecodable(_) => {}
            other => panic!("{:?}", other),
        }
    }
}

#[test]
fn malformed_payload_fails_collect() {
    let events = vec![chat("a"), payload("{not json"), chat("b"), done()];
    match collect(WireShape::Chat, &events) {
        Err(Error::Serialization(DecodeError::Json(_))) => {}
        other => panic!("{:?}", other),
    }
    assert!(collect_chat_completion(&events).is_err());
}

#[test]
fn malformed_payload_after_sentinel_is_not_seen() {
    let events = vec![chat("a"), done(), payload("{not json")];
    assert_eq!(collect(WireShape::Chat, &events).unwrap().text, "a");
}

#[test]
fn sentinel_alone_gives_empty_aggregate() {
    let aggregate = collect(WireShape::Chat, &vec![done()]).unwrap();
    assert_eq!(aggregate, empty_aggregate());
    let aggregate = collect(WireShape::Text, &vec![done()]).unwrap();
    assert_eq!(aggregate, empty_aggregate());
}

#[test]
fn no_event_gives_empty_aggregate() {
    assert_eq!(
        collect(WireShape::Chat, &Vec::new()).unwrap(),
        empty_aggregate()
    );
    assert_eq!(aggregate_chunks(&Vec::new()), empty_aggregate());
}

#[test]
fn sentinel_changes_nothing_after_chunks() {
    let with = collect(WireShape::Chat, &vec![chat("a"), chat("b"), done()]).unwrap();
    let without = collect(WireShape::Chat, &vec![chat("a"), chat("b")]).unwrap();
    assert_eq!(with, without);
    assert_eq!(with.text, "ab");
}

#[test]
fn events_after_sentinel_are_ignored() {
    let events = vec![chat("a"), done(), chat("b")];
    assert_eq!(collect(WireShape::Chat, &events).unwrap().text, "a");
    assert_eq!(drain(WireShape::Chat, &events).len(), 1);
}

#[test]
fn fault_fails_collect_with_streaming_error() {
    let events = vec![chat("a"), StreamEvent::Fault("Parse error: x".to_string())];
    assert_eq!(
        collect(WireShape::Chat, &events),
        Err(Error::Streaming(
            "Event stream error: Parse error: x".to_string()
        ))
    );
}

#[test]
fn live_stream_reports_decode_error_and_goes_on() {
    let events = vec![chat("a"), payload("nonsense"), chat("b"), done()];
    let items = drain(WireShape::Chat, &events);
    assert_eq!(items.len(), 3);
    assert!(items[0].is_ok());
    assert!(matches!(
        items[1],
        Err(Error::Serialization(DecodeError::Json(_)))
    ));
    assert_eq!(
        items[2].as_ref().unwrap().choices[0].content,
        Some("b".to_string())
    );
}

#[test]
fn live_stream_ends_after_fault() {
    let events = vec![
        chat("a"),
        StreamEvent::Fault("UTF8 error".to_string()),
        chat("b"),
    ];
    let items = drain(WireShape::Chat, &events);
    assert_eq!(items.len(), 2);
    assert_eq!(
        items[1],
        Err(Error::Streaming("Event stream error: UTF8 error".to_string()))
    );
}

#[test]
fn stream_decoder_phases() {
    let mut stream = StreamDecoder::new(WireShape::Chat);
    assert_eq!(stream.phase(), Phase::Receiving);
    assert_eq!(stream.shape(), WireShape::Chat);
    assert!(!stream.is_closed());
    assert!(stream.on_event(&chat("a")).unwrap().is_ok());
    assert_eq!(stream.phase(), Phase::Receiving);
    assert!(stream.on_event(&payload("[")).unwrap().is_err());
    assert_eq!(stream.phase(), Phase::Receiving);
    assert_eq!(stream.on_event(&done()), None);
    assert_eq!(stream.phase(), Phase::ClosedClean);
    assert!(stream.is_closed());
    assert_eq!(stream.on_event(&chat("b")), None);
    assert_eq!(stream.phase(), Phase::ClosedClean);

    let mut broken = StreamDecoder::new(WireShape::Text);
    assert!(broken
        .on_event(&StreamEvent::Fault("gone".to_string()))
        .unwrap()
        .is_err());
    assert_eq!(broken.phase(), Phase::ClosedWithError);
    broken.on_end();
    assert_eq!(broken.phase(), Phase::ClosedWithError);

    let mut ended = StreamDecoder::new(WireShape::Text);
    ended.on_end();
    assert_eq!(ended.phase(), Phase::ClosedClean);
}

#[test]
fn collector_step_by_step() {
    let mut collector = Collector::new(WireShape::Chat);
    assert!(!collector.is_closed());
    assert!(collector.feed(&chat("a")));
    assert!(collector.feed(&chat("b")));
    assert!(!collector.feed(&done()));
    assert!(collector.is_closed());
    assert!(!collector.feed(&payload("broken")));
    assert_eq!(collector.finish().unwrap().text, "ab");

    let mut failing = Collector::new(WireShape::Chat);
    assert!(!failing.feed(&payload("broken")));
    assert!(!failing.feed(&chat("a")));
    assert!(failing.finish().is_err());
}

#[test]
fn aggregator_folds_chunks() {
    let first = Chunk {
        id: Some("abc".to_string()),
        created: None,
        model: None,
        choices: vec![Delta {
            index: 0,
            content: Some("Hel".to_string()),
            finish_reason: Some(FinishReason::Length),
        }],
    };
    let second = Chunk {
        id: Some("xyz".to_string()),
        created: Some(7),
        model: Some("m".to_string()),
        choices: vec![
            Delta {
                index: 0,
                content: Some("lo".to_string()),
                finish_reason: None,
            },
            Delta {
                index: 0,
                content: None,
                finish_reason: Some(FinishReason::ContentFilter),
            },
        ],
    };
    let mut fold = Aggregator::new();
    fold.push(&first);
    fold.push(&second);
    let aggregate = fold.finish();
    assert_eq!(
        aggregate,
        Aggregate {
            id: Some("abc".to_string()),
            created: Some(7),
            model: Some("m".to_string()),
            text: "Hello".to_string(),
            finish_reason: Some(chat_completion::FinishReason::ContentFilter),
        }
    );
    assert_eq!(aggregate_chunks(&vec![first, second]), aggregate);
}

#[test]
fn chat_completion_from_stream() {
    let events = vec![
        payload("{\"id\":\"abc\",\"object\":\"chat.completion.chunk\",\"created\":1700000000,\"model\":\"llama3.1-8b\",\"choices\":[{\"index\":0,\"delta\":{\"role\":\"assistant\",\"content\":\"Hel\"},\"finish_reason\":null}]}"),
        payload("{\"id\":\"abc\",\"choices\":[{\"index\":0,\"delta\":{\"content\":\"lo\"}}]}"),
        payload("{\"id\":\"abc\",\"choices\":[{\"index\":0,\"delta\":{},\"finish_reason\":\"stop\"}]}"),
        done(),
    ];
    let answer = collect_chat_completion(&events).unwrap();
    assert_eq!(answer.id, Some("abc".to_string()));
    assert_eq!(
        answer.object,
        Some(chat_completion::Object::ChatPeriodCompletion)
    );
    assert_eq!(answer.created, Some(1700000000));
    assert_eq!(answer.model, Some("llama3.1-8b".to_string()));
    assert_eq!(answer.system_fingerprint, None);
    assert_eq!(answer.usage, None);
    let choices = answer.choices.unwrap();
    assert_eq!(choices.len(), 1);
    assert_eq!(choices[0].index, Some(0));
    assert_eq!(
        choices[0].finish_reason,
        Some(chat_completion::FinishReason::Stop)
    );
    let message = choices[0].message.clone().unwrap();
    assert_eq!(message.role, Role::Assistant);
    assert_eq!(message.content, "Hello");
    assert_eq!(message.name, None);
    assert_eq!(message.tool_calls, None);
    assert_eq!(message.tool_call_id, None);
}

#[test]
fn completion_from_stream() {
    let events = vec![
        payload("{\"id\":\"c1\",\"created\":3,\"model\":\"m\",\"choices\":[{\"index\":0,\"text\":\"Once\"}]}"),
        payload("{\"choices\":[{\"index\":0,\"text\":\" upon\",\"finish_reason\":\"length\"}]}"),
        done(),
    ];
    let answer = collect_completion(&events).unwrap();
    assert_eq!(answer.id, Some("c1".to_string()));
    assert_eq!(
        answer.object,
        Some(cerebras_rs::completion::Object::TextCompletion)
    );
    assert_eq!(answer.created, Some(3));
    assert_eq!(answer.model, Some("m".to_string()));
    let choices = answer.choices.unwrap();
    assert_eq!(choices.len(), 1);
    assert_eq!(choices[0].index, Some(0));
    assert_eq!(choices[0].text, Some("Once upon".to_string()));
    assert_eq!(
        choices[0].finish_reason,
        Some(chat_completion::FinishReason::Length)
    );
}

#[test]
fn decode_reads_every_field() {
    let chunk = decode_chunk(
        WireShape::Chat,
        "{\"id\":\"i\",\"created\":-4,\"model\":\"m\",\"extra\":[1,2],\"choices\":[{\"index\":3,\"delta\":{\"content\":\"t\"},\"finish_reason\":\"content_filter\"},{\"index\":4294967295,\"delta\":null}]}",
    )
    .unwrap();
    assert_eq!(
        chunk,
        Chunk {
            id: Some("i".to_string()),
            created: Some(-4),
            model: Some("m".to_string()),
            choices: vec![
                Delta {
                    index: 3,
                    content: Some("t".to_string()),
                    finish_reason: Some(FinishReason::ContentFilter),
                },
                Delta {
                    index: 4294967295,
                    content: None,
                    finish_reason: None,
                },
            ],
        }
    );
}

#[test]
fn decode_empty_object_is_empty_chunk() {
    let chunk = decode_chunk(WireShape::Text, "{}").unwrap();
    assert_eq!(
        chunk,
        Chunk {
            id: None,
            created: None,
            model: None,
            choices: Vec::new(),
        }
    );
    let chunk = decode_chunk(WireShape::Chat, "{\"choices\":null}").unwrap();
    assert_eq!(chunk.choices, Vec::new());
}

#[test]
fn decode_text_shape_reads_text_not_delta() {
    let payload = "{\"choices\":[{\"index\":0,\"text\":\"a\",\"delta\":{\"content\":\"b\"}}]}";
    let text = decode_chunk(WireShape::Text, payload).unwrap();
    assert_eq!(text.choices[0].content, Some("a".to_string()));
    let chat = decode_chunk(WireShape::Chat, payload).unwrap();
    assert_eq!(chat.choices[0].content, Some("b".to_string()));
}

fn schema_fault(shape: WireShape, payload: &str) -> Field {
    match decode_chunk(shape, payload) {
        Err(DecodeError::Schema(field)) => field,
        other => panic!("{:?}", other),
    }
}

#[test]
fn decode_names_the_field_at_fault() {
    let chat = WireShape::Chat;
    assert_eq!(schema_fault(chat, "[]"), Field::Chunk);
    assert_eq!(schema_fault(chat, "\"[DONE]\""), Field::Chunk);
    assert_eq!(schema_fault(chat, "7"), Field::Chunk);
    assert_eq!(schema_fault(chat, "null"), Field::Chunk);
    assert_eq!(schema_fault(chat, "{\"id\":5}"), Field::Id);
    assert_eq!(schema_fault(chat, "{\"created\":\"now\"}"), Field::Created);
    assert_eq!(schema_fault(chat, "{\"created\":1.5}"), Field::Created);
    assert_eq!(
        schema_fault(chat, "{\"created\":9223372036854775808}"),
        Field::Created
    );
    assert_eq!(schema_fault(chat, "{\"model\":[]}"), Field::Model);
    assert_eq!(schema_fault(chat, "{\"choices\":{}}"), Field::Choices);
    assert_eq!(schema_fault(chat, "{\"choices\":[1]}"), Field::Choice);
    assert_eq!(schema_fault(chat, "{\"choices\":[{}]}"), Field::Index);
    assert_eq!(
        schema_fault(chat, "{\"choices\":[{\"index\":-1}]}"),
        Field::Index
    );
    assert_eq!(
        schema_fault(chat, "{\"choices\":[{\"index\":4294967296}]}"),
        Field::Index
    );
    assert_eq!(
        schema_fault(chat, "{\"choices\":[{\"index\":null}]}"),
        Field::Index
    );
    assert_eq!(
        schema_fault(chat, "{\"choices\":[{\"index\":0,\"delta\":\"x\"}]}"),
        Field::Delta
    );
    assert_eq!(
        schema_fault(
            chat,
            "{\"choices\":[{\"index\":0,\"delta\":{\"content\":1}}]}"
        ),
        Field::Content
    );
    assert_eq!(
        schema_fault(
            WireShape::Text,
            "{\"choices\":[{\"index\":0,\"text\":false}]}"
        ),
        Field::Text
    );
    assert_eq!(
        schema_fault(chat, "{\"choices\":[{\"index\":0,\"finish_reason\":3}]}"),
        Field::FinishReason
    );
    assert_eq!(
        schema_fault(
            chat,
            "{\"choices\":[{\"index\":0,\"finish_reason\":\"eos\"}]}"
        ),
        Field::FinishReason
    );
}

#[test]
fn decode_reports_first_fault() {
    assert_eq!(
        schema_fault(WireShape::Chat, "{\"id\":1,\"created\":\"x\"}"),
        Field::Id
    );
    assert_eq!(
        schema_fault(
            WireShape::Chat,
            "{\"choices\":[{\"index\":0,\"finish_reason\":\"bad\"},{\"index\":-1}]}"
        ),
        Field::FinishReason
    );
    assert_eq!(
        schema_fault(
            WireShape::Chat,
            "{\"choices\":[{\"index\":0},{\"index\":\"x\",\"delta\":3}]}"
        ),
        Field::Index
    );
}

#[test]
fn decode_gives_parser_description_for_bad_json() {
    assert_eq!(
        decode_chunk(WireShape::Chat, ""),
        Err(DecodeError::Json(
            "EOF while parsing a value at line 1 column 0".to_string()
        ))
    );
    assert_eq!(
        decode_chunk(WireShape::Chat, "{\"id\":}"),
        Err(DecodeError::Json(
            "expected value at line 1 column 7".to_string()
        ))
    );
}

#[test]
fn reason_vocabulary_depends_on_shape() {
    assert_eq!(
        FinishReason::from_wire(WireShape::Chat, "stop"),
        Some(FinishReason::Stop)
    );
    assert_eq!(
        FinishReason::from_wire(WireShape::Chat, "length"),
        Some(FinishReason::Length)
    );
    assert_eq!(
        FinishReason::from_wire(WireShape::Chat, "tool_calls"),
        Some(FinishReason::ToolCalls)
    );
    assert_eq!(
        FinishReason::from_wire(WireShape::Chat, "content_filter"),
        Some(FinishReason::ContentFilter)
    );
    assert_eq!(FinishReason::from_wire(WireShape::Chat, "Stop"), None);
    assert_eq!(FinishReason::from_wire(WireShape::Chat, ""), None);
    assert_eq!(
        FinishReason::from_wire(WireShape::Text, "stop"),
        Some(FinishReason::Stop)
    );
    assert_eq!(
        FinishReason::from_wire(WireShape::Text, "length"),
        Some(FinishReason::Length)
    );
    assert_eq!(FinishReason::from_wire(WireShape::Text, "tool_calls"), None);
    assert_eq!(
        FinishReason::from_wire(WireShape::Text, "content_filter"),
        None
    );
    assert_eq!(
        schema_fault(
            WireShape::Text,
            "{\"choices\":[{\"index\":0,\"finish_reason\":\"tool_calls\"}]}"
        ),
        Field::FinishReason
    );
}

#[test]
fn reason_names_round_trip() {
    for reason in [
        FinishReason::Stop,
        FinishReason::Length,
        FinishReason::ToolCalls,
        FinishReason::ContentFilter,
    ] {
        assert_eq!(
            FinishReason::from_wire(WireShape::Chat, reason.wire_name()),
            Some(reason)
        );
    }
    assert_eq!(FinishReason::Stop.settled(), chat_completion::FinishReason::Stop);
    assert_eq!(
        FinishReason::Length.settled(),
        chat_completion::FinishReason::Length
    );
    assert_eq!(
        FinishReason::ToolCalls.settled(),
        chat_completion::FinishReason::ToolCalls
    );
    assert_eq!(
        FinishReason::ContentFilter.settled(),
        chat_completion::FinishReason::ContentFilter
    );
}
