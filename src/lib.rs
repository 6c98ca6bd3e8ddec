//! Building blocks of a synthetic telemetry load generator: a deterministic
//! matrix of channels, a fixed pool of random messages that is cycled, a pacer
//! that holds a target rate, a cancellation flag, and the decisions of the
//! cancellable streaming loop that submits those messages to an ingestion
//! session.
pub mod cancel;
pub mod channels;
pub mod decimal;
pub mod names;
pub mod pacer;
pub mod pool;
pub mod streaming;
