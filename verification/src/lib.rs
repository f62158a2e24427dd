//! A bounded asynchronous work-offload stage for a real-time image effect,
//! together with the strided-buffer decoding and encoding pipeline that
//! feeds it.
//!
//! The scheduler decouples a possibly slow per-frame computation from a
//! caller that must return promptly every invocation: at most one job is in
//! flight, a further submission under backpressure is dropped rather than
//! queued, and completed frames come back through a bounded queue, one or
//! more frames behind the input by design. The decoder turns a host-owned
//! strided pixel buffer into three equal-length sample planes for the rows a
//! field selector keeps; the encoder densifies them back into one
//! interleaved image. A parameter bridge maps the flat, UI-editable record
//! to the nested optional-feature configuration the effect engine consumes,
//! with each group's enable flag as the sole presence discriminant.
pub mod bridge;
pub mod decode;
pub mod encode;
pub mod field;
pub mod format;
pub mod output;
pub mod params;
pub mod pipeline;
pub mod planes;
pub mod scheduler;
