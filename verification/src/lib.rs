//! Muse: the verified core of a terminal lyric viewer.

pub mod cache;
pub mod colorgen;
pub mod config;
pub mod kmeans;
pub mod lyric;
pub mod text;
pub mod theme;
pub mod ui;
pub mod watcher;
