//! Marshalling boundary for a batched neural-machine-translation engine.
//!
//! The engine itself (model loading, beam search, hardware dispatch) lives in
//! a native library behind a foreign-function bridge; this crate holds the
//! logic that crosses that boundary: resolving the per-call option bundle to
//! its documented defaults, building the batched token containers in order,
//! collecting per-index extraction results back into whole batches, and
//! accounting for the lifetime of every native container so that none leaks
//! on any exit path.

pub mod batch;
pub mod errors;
pub mod options;
pub mod session;

pub use batch::TokenBatch;
pub use batch::echo_batch;
pub use errors::ModelLoadError;
pub use errors::TranslationError;
pub use options::BatchType;
pub use options::TranslateRequest;
pub use options::TranslationOptions;
pub use options::default_options;
pub use options::prepare_request;
pub use session::ContainerLedger;
pub use session::NativeOutcome;
pub use session::collect_outputs;
pub use session::run_translate_call;
