//! Cycle accounting for one unit of work.
//!
//! An [`ExecutionDurationRecord`] splits the cycles spent in one larger
//! operation into five named phases and a whole-operation total. The caller
//! owns the clock: every operation that needs the current time takes a reading
//! of a monotonic cycle counter as a plain `u64`.
//!
//! - [`model`]: the record as natural numbers, and its transitions as pure
//!   functions. Every contract is stated over it.
//! - [`duration`]: the executable record.
//! - [`laws`]: what follows for every record, proved over the model.

pub mod duration;
pub mod laws;
pub mod model;

pub use duration::ExecutionDurationRecord;
pub use model::Bucket;
pub use model::DurationError;
pub use model::DurationModel;
pub use model::Step;
