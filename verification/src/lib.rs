//! Decisions and text handling behind a booru wallpaper fetcher.

pub mod text;
pub mod types;
pub mod rating;
pub mod config;
pub mod criteria;
pub mod media;
pub mod batch;
pub mod attempts;
pub mod candidate;
pub mod run;
pub mod pixels;
