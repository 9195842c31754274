//! A video-sharing backend's verified core: the token lifecycle, the
//! authorization guard chain, HTTP range parsing, and the range-aware
//! media stream engine.
//!
//! Everything that touches the outside world — the document store, the
//! filesystem, the wire — happens outside; these modules take those
//! results as plain values and make every decision with a proved
//! contract.

pub mod authentication;
pub mod config;
pub mod media;
pub mod response;
pub mod text;
pub mod token;
pub mod user;
pub mod video;
