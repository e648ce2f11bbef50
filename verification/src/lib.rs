//! The request-handling core of a small Gemini server: the status codes, the
//! responses and their wire format, the rules by which a request line becomes
//! a response, and the directory listings.

pub mod connection;
pub mod echo;
pub mod listing;
pub mod order;
pub mod outside;
pub mod request;
pub mod resolver;
pub mod response;
pub mod status;
