//! Client-side core of a Wayland protocol backend.
//!
//! The crate tracks the lifetime of every protocol object of one compositor
//! connection, validates and lowers outbound requests, raises and dispatches
//! inbound events, and elects the reader that drains the socket. It performs no
//! I/O itself: the transport hands parsed messages in and takes queued requests
//! out.

pub mod client;
pub mod core_interfaces;
pub mod cx;
pub mod map;
pub mod object_id;
pub mod protocol;
pub mod sync_data;
pub mod text;
pub mod types;
