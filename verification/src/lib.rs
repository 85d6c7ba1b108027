//! Client library for a newsletter subscription service.
//!
//! Every operation of the remote service exchanges flat payloads: a request
//! is a list of form or query pairs, and a response is a JSON envelope
//! `{"status": "ok" | "error", ...}` whose remaining fields form an open
//! payload.  This crate builds the request payloads and interprets the
//! response envelopes; the HTTP transport itself stays outside.

pub mod client;
pub mod envelope;
pub mod json;
pub mod requests;
pub mod urls;
pub mod wire;

pub use client::Basket;
pub use client::HttpRequest;
pub use client::Method;
pub use envelope::ApiResponse;
pub use envelope::BasketError;
pub use envelope::read_response;
pub use envelope::write_response;
pub use requests::Subscribe;
pub use requests::SubscribeOpts;
pub use requests::Unsubscribe;
pub use requests::UpdateUser;
pub use requests::UpdateUserOpts;
pub use requests::join_newsletters;
pub use wire::Format;
pub use wire::Status;
pub use wire::YesNo;
