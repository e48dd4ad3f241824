//! The decision logic of the Ruffle Flash Player front end for iOS: the
//! keyboard and touch handling of the player view, the per-movie
//! key/value store, the settings form of the edit screen and the player
//! configuration derived from a movie's options.

pub mod text;
pub mod web_url;
pub mod keys;
pub mod touch;
pub mod player_view;
pub mod storage;
pub mod options;
pub mod settings;
pub mod player_config;
pub mod stored_options;
pub mod library;
