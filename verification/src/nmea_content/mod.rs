//! The content of the standard sentences: the values that their fields
//! take, and the parsers of the fields that need more than their type.

pub mod parse;
pub mod sentences;

pub use sentences::{
    FaaMode, FixMode, NavStatus, Quality, Satellite, SelectionMode, SignalId, Status, SystemId,
    SentenceType, GSV,
};
