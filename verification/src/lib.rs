//! Request identity and torrent-handling logic of a private torrent tracker.

pub mod id;
pub mod identity;
pub mod torrent;
pub mod pages;
