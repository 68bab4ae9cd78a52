//! A verified client core for a multiplexed, text-framed streaming market
//! data feed: frames arrive as JSON text, are classified into a closed set
//! of typed events by an ordered rule table, and are delivered to a
//! consumer in arrival order until the caller clears the run flag or the
//! peer closes the connection.

pub mod classify;
pub mod dispatch;
pub mod endpoint;
pub mod errors;
pub mod events;
pub mod json;
pub mod parse;
pub mod payload;
pub mod text;
pub mod userstream;
