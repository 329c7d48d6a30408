//! Desktop client core for the AniList service: the OAuth2 login flow with
//! a loopback callback, the token lifecycle, the time-bounded media caches,
//! and the application's theme, configuration and display models.
pub mod error;
pub mod token;
pub mod callback;
pub mod authorize;
pub mod manager;
pub mod provider;
pub mod models;
pub mod ui;
pub mod settings;
pub mod config;
pub mod theme;
pub mod keyed;
pub mod cache;
