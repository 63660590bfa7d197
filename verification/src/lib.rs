//! Verified core of the Khukri download manager: segment planning, retry
//! policy, the priority queue, configuration and settings validation, the
//! native-messaging framing, browser request normalization and the media
//! (yt-dlp) argument building.

pub mod text;
pub mod trusted;
pub mod db;
pub mod segment;
pub mod error;
pub mod config;
pub mod retry;
pub mod queue;
pub mod bridge;
pub mod platform;
pub mod download;
pub mod desktop;
