//! A multi-room chat relay: the room registry, the wire text of announcements,
//! and the lifecycle of one client connection.

pub mod accounts;
pub mod auth;
pub mod channel;
pub mod lifecycle;
pub mod pump;
pub mod registry;
pub mod session;
pub mod wire;
