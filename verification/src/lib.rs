//! Verified core of a multi-source music player: the playback queue with its
//! shuffle order, the decisions the player takes on each event, and the
//! conversions between stored, provider and frontend records.
pub mod models;
pub mod queue;
pub mod core_playback;
pub mod text;
pub mod commands;
pub mod playback;
pub mod state;
pub mod database;
pub mod config;
pub mod net;
pub mod websocket;
pub mod providers;
pub mod spotify_connect;
pub mod ui;
pub mod cache;
pub mod plex;
pub mod jellyfin;
pub mod spotify;
pub mod loading;
pub mod oauth;
pub mod auth;
pub mod ids;
pub mod preload;
pub mod startup;
pub mod export;
