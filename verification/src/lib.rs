//! Client-side logic for the Pushinator push-notification service.
//!
//! The crate describes the HTTP exchange without performing it: a
//! [`PushinatorClient`] turns a channel and a message into the one `POST`
//! request that has to be sent, and [`outcome`] turns whatever came back into
//! the result of the dispatch. Whoever owns the transport sends the request
//! and reports the reply.

pub mod body;
pub mod client;
pub mod outcome;
pub mod request;

pub use body::{frame_body, notification_body};
pub use client::{ClientConfig, PushinatorClient};
pub use outcome::{is_success, outcome, Reply, ReplyView, SendError, SendErrorView};
pub use request::{Header, HeaderView, PostRequest, PostRequestView};
