//! Verified core of an interactive front-end to the `yt-dlp` downloader.

pub mod analyzer;
pub mod classifier;
pub mod config;
pub mod error;
pub mod formats;
pub mod parser;
pub mod policy;
pub mod preferences;
pub mod retry;
pub mod text;
pub mod wizard;
