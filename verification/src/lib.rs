//! A cache of posts and their media, kept in memory and saved between runs,
//! and the rules of the program around it.

pub mod api;
pub mod blacklist;
pub mod config;
pub mod dirs;
pub mod dtext;
pub mod eviction;
pub mod followed;
pub mod ids;
pub mod location;
pub mod media;
pub mod message;
pub mod model;
pub mod navigation;
pub mod results;
pub mod session;
pub mod snapshot;
pub mod state;
pub mod store;
pub mod text;
pub mod time_ago;
