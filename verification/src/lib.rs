//! A request router in front of several downstream detector services.
//!
//! The library resolves a caller-supplied model identifier to the network
//! endpoint registered for it, describes the single outbound HTTP call that
//! must be made, and normalizes the outcome of that call — success, transport
//! failure, or an undecodable response body — into one uniform result type.
//! The network call itself is left to the surrounding program; the routing
//! decisions on either side of it are verified here.

pub mod dispatch;
pub mod json;

pub use dispatch::ConnectionDescriptor;
pub use dispatch::DetectorService;
pub use dispatch::DetectorServicer;
pub use dispatch::DispatchError;
pub use dispatch::OutboundCall;
pub use dispatch::TransportOutcome;
