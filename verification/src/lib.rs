//! # eventstreams
//!
//! A typed view of Wikimedia's EventStreams feed of recent changes.
//!
//! The feed delivers one JSON object per line. [`handle_line`] decodes a raw
//! line, [`classify`] turns the decoded value into an [`Event`], an
//! [`EditEvent`] or a [`LogEvent`], and drops what is neither. Two front ends
//! hand the events on: an [`EventStream`] chooses, for every message, the
//! registered listeners to call, and an [`EventSequence`] yields the events
//! one by one.
//!
//! The crate opens no connection and calls no listener itself: it takes the
//! raw messages from whoever receives them and says what to do with each.

pub mod decode;
pub mod fields;
pub mod json;
pub mod sequence;
pub mod stream;
pub mod text;
pub mod types;

pub use decode::{classify, classify_line, handle_line};
pub use sequence::{open_event_sequence, EventSequence};
pub use stream::{Delivery, EventStream, StreamError, StreamState, Subscription};
pub use types::{EditEvent, Event, EventKind, EventLength, EventMeta, EventRevision, LogEvent};
