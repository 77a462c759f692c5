//! A client of two read-only data sources of League of Legends: the game
//! service, which asks for a token, and the static content.
//!
//! The library performs no round trip itself. A client builds each
//! `Request`; the caller performs it and hands the reply back, as a parsed
//! document or as nothing where the round trip failed; the client reads the
//! record out of it. What is read, and when nothing is read, is stated in
//! the contract of each function and proved.

pub mod decode;
pub mod filters;
pub mod json;
pub mod models;
pub mod platform;
pub mod region;
pub mod request;
pub mod riot_api;
pub mod utils_api;
