//! The streaming response decoder and aggregator.

pub mod aggregate;
pub mod answer;
pub mod chunk;
pub mod events;
pub mod laws;

pub use aggregate::{aggregate_chunks, Aggregate, Aggregator};
pub use answer::{collect_chat_completion, collect_completion};
pub use chunk::{decode_chunk, Chunk, Delta, FinishReason, WireShape};
pub use events::{collect, drain, interpret, Collector, Phase, Signal, StreamDecoder, StreamEvent};
