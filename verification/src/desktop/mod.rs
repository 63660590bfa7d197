//! The desktop application: settings, the download list and its queue
//! rules, media jobs, the bundled bridge and yt-dlp updates.

pub mod settings;
pub mod media;
pub mod downloads;
pub mod updater;
pub mod native_host;
pub mod bootstrap;
