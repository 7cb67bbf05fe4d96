//! Verified core of a Spotify playlist synchroniser and download queue.
pub mod queue;
pub mod sync;
pub mod playlist_id;
pub mod decimal;
pub mod text;
pub mod auth;
pub mod fetch;
pub mod download;
