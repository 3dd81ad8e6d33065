//! Real-time aggregation of Bitswap monitoring events.
//!
//! Monitoring nodes push the Bitswap messages and connection events they
//! see. Each event is classified by the country its peer connects from and
//! by whether the peer is a known public gateway, and counted in one bundle
//! of counters per such classification:
//!
//! - [`events`] holds the events, [`geolocation`] and [`gateways`] classify
//!   them, [`metrics`] and [`registry`] hold the counters, [`dispatch`]
//!   counts a batch, and [`totals`] states what a batch does to the counters
//!   as a whole.
//! - [`sources`], [`supervisor`] and [`shutdown`] decide what the task of
//!   each monitor and the process around them do next; [`disklog`] gives the
//!   form of the log that the events are written to.
//! - [`model`], [`cids`] and [`db`] work out what is written to the
//!   database of blocks and recorded messages.
//!
//! The library does no input or output of its own: it decides and counts,
//! and leaves connecting, waiting, reading and writing to its caller.

pub mod cids;
pub mod db;
pub mod disklog;
pub mod dispatch;
pub mod events;
pub mod gateways;
pub mod geolocation;
pub mod metrics;
pub mod model;
pub mod registry;
pub mod shutdown;
pub mod sources;
pub mod supervisor;
pub mod totals;
