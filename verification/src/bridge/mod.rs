//! The browser native-messaging host.

pub mod request;
pub mod protocol;
pub mod paths;
pub mod media;
pub mod events;
pub mod registration;
pub mod dispatch;
