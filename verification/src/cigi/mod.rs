//! The Common Image Generator Interface, version 3.3.

pub mod host;
pub mod messages;
pub mod packets;
