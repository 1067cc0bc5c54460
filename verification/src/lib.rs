//! A client library for delivering line-oriented metric records to a
//! Graphite-style collector over a persistent stream connection.
//!
//! The library verifies the parts that decide: metric serialization, address
//! validation, and the reconnect/send retry protocol, expressed as step
//! machines that an unverified transport shell drives against real sockets.

mod addr;
mod client;
mod digits;
mod errors;
mod laws;
mod message;

pub use addr::check_ip_literal;
pub use client::ConnectOutcome;
pub use client::GraphiteClient;
pub use client::ReconnectStep;
pub use client::ReconnectTask;
pub use client::SendStep;
pub use client::SendTask;
pub use client::WriteOutcome;
pub use digits::u64_to_dec;
pub use errors::GraphiteError;
pub use errors::GraphiteErrorKind;
pub use message::GraphiteMessage;
