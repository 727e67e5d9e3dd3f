//! Alias-safe handles over one stream record of an in-memory media container.
mod bounds;
mod context;
mod dictionary;
mod error;
mod parameters;
mod rational;
mod stream;
mod stream_mut;

pub use bounds::{lower_bound, seek_bounds, seek_status, upper_bound, TimestampBound, TimestampRange};
pub use context::{Context, ContextView, SeekRequest, StreamRecord, StreamRecordView, EINVAL};
pub use dictionary::Dictionary;
pub use error::Error;
pub use parameters::{Parameters, ParametersView};
pub use rational::Rational;
pub use stream::Stream;
pub use stream_mut::{RateField, StreamMut};
