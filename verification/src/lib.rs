//! A small verified core for a command-line HTTP client.
//!
//! The library covers the decision logic of one request lifecycle:
//! classifying a URL as usable or not (`url_check`), deciding the
//! effective method and body of the request (`request`), and turning
//! the outcome of the exchange into display text (`render`).  The
//! network itself, argument parsing and printing live outside the
//! library; they hand plain values in and take plain values back.

pub mod json_io;
pub mod render;
pub mod request;
pub mod text;
pub mod url_check;
