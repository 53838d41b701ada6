//! Acquires literary works for a personal corpus and deposits them into a
//! canonical per-author, per-work filesystem layout.
//!
//! The library holds the decision and normalization logic: classifying
//! payloads by extension, deriving canonical destinations, persisting the
//! completion manifest, and deciding whether an acquisition is still needed.
//! Network transfer and filesystem mutation are carried out by a thin
//! unverified driver that executes the plans computed here.

pub mod authors;
pub mod extensions;
pub mod http;
pub mod paths;
pub mod scraping;
pub mod strings;
pub mod torrents;
pub mod utils;
