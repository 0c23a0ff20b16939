//! The names that code which tracks values needs, in one place.

pub use crossbeam_channel::Sender;

pub use crate::serialization::bincode::Bincode;
pub use crate::serialization::SerializationStrategy;
pub use crate::{Identifier, ModificationEvent, Trackable, TrackableMarker, Tracker};
