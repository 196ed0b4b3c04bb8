//! A client library for a market-data service.
//!
//! The streaming side covers subscriptions and their normalisation, the
//! connect / authenticate / subscribe handshake and the session that turns
//! frames of server items into events. The REST side covers the request
//! types of the endpoints with their paths and query strings, and the
//! status-tagged response envelope.

mod foreign;
mod text;

pub mod api;
pub mod api_info;
pub mod error;
pub mod handshake;
pub mod message;
pub mod session;
pub mod subscription;

pub use api::Response;
pub use api::ResponseError;
pub use api_info::ApiInfo;
pub use error::Error;
pub use error::ErrorMessage;
pub use error::HttpBody;
pub use handshake::Action;
pub use handshake::Handshake;
pub use handshake::Incoming;
pub use handshake::Phase;
pub use handshake::Request;
pub use handshake::Step;
pub use message::Aggregate;
pub use message::Code;
pub use message::Event;
pub use message::Message;
pub use message::Quote;
pub use message::Status;
pub use message::Timestamp;
pub use message::Trade;
pub use session::Session;
pub use session::StreamItem;
pub use subscription::Kind;
pub use subscription::Stock;
pub use subscription::Subscription;
pub use subscription::normalize;
