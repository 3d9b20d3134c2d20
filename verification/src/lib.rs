//! Core of a shadow-traffic HTTP/1.x proxy: the wire codec for requests and
//! responses, and the decisions of the connection, origin and analysis stages,
//! written as pure transitions that a runtime drives.

pub mod config;
pub mod connection;
pub mod decoders;
pub mod error;
pub mod http;
pub mod origin;
pub mod parsers;
pub mod partials;
pub mod pipeline;
pub mod request;
pub mod response;
pub mod scan;
pub mod stream;
pub mod text;
