//! The rules behind the library pages: how an offline download is fetched
//! and reported, which tracks a filter keeps, which names stand for an
//! unknown artist or album, how the home page labels its sections and which
//! actions a song card offers, the sign-in cookie read out of a header, and
//! the download formats a yt-dlp job can ask for.

pub mod download_manager;
pub mod favorites;
pub mod home;
pub mod settings_actions;
pub mod ytdlp_jobs;
