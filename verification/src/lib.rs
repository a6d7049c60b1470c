//! Verified core of a serial telemetry viewer: a byte-stream framer that
//! reassembles newline-terminated messages from arbitrarily fragmented reads,
//! a decoder that splits each message into a routing header and a payload,
//! a fixed registry of telemetry streams, a sliding sample window with
//! span-based eviction and reset-on-regression, and a bounded channel fabric
//! connecting the ingest worker to its consumers.

pub mod commands;
pub mod decoder;
pub mod fabric;
pub mod framer;
pub mod ingest;
pub mod registry;
pub mod window;

pub use fabric::FabricConsumer;
pub use fabric::FabricProducer;
pub use framer::FrameExtractor;
pub use ingest::IngestState;
pub use registry::StreamId;
pub use window::Measurement;
pub use window::MeasurementWindow;
