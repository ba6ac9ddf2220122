// A verified live-capture pipeline: one producer reads frames from a
// video source and feeds two consumers — a persistence sink that must
// end up as a finalized, playable container on every exit path, and a
// presentation side that only ever wants the newest frame. The modules
// model the pipeline's data and decisions; device, file and window I/O
// stay outside the library.

/// The latest-frame distribution channel between capture and presentation.
pub mod channel;
/// The pure source-to-presentation color conversion.
pub mod convert;
/// The pipeline's error taxonomy.
pub mod errors;
/// Frames and their well-formedness.
pub mod frame;
/// The periodic presentation consumer and its fixed working buffer.
pub mod pump;
/// The capture session: startup checks and the per-iteration step.
pub mod session;
/// The one-shot shutdown coordinator.
pub mod shutdown;
/// The persistence sink's bookkeeping: what was appended, and finalization.
pub mod sink;
