//! Presence aggregation: client machines report what their user is doing,
//! and a server serves the latest report of each device for as long as it is
//! fresh.
//!
//! The library is the engine behind that server and the few rules of its
//! client, each stated as a contract and proved with Verus:
//!
//! - [`status`]: the status record and its sentinel values.
//! - [`filter`]: redaction by an ordered list of pattern-to-replacement
//!   rules, applied before a report is stored.
//! - [`presence`]: the presence store and the freshness rule, with the laws
//!   that hold of them.
//! - [`device_manager`]: the aggregation service, which redacts, stores and
//!   serves.
//! - [`auth`] and [`server`]: the authorization of writes and the two
//!   operations of the server.
//! - [`config`]: settings, their defaults, and how stored settings become
//!   usable.
//! - [`error`]: the failures reported to callers.
//!
//! The library reads no clock, file or socket. Time is a parameter, in
//! milliseconds since the epoch. Pattern matching is done by the `regex`
//! crate; what the library relies on from it is stated in
//! [`filter::pattern`].

pub mod auth;
pub mod config;
pub mod device_manager;
pub mod error;
pub mod filter;
pub mod presence;
pub mod server;
pub mod status;
