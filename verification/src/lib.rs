//! Core of a media-search backend: the error taxonomy, the normalized search
//! model, and the adapter that turns a game-catalog provider's JSON into it.

pub mod agreement;
pub mod config;
pub mod dates;
pub mod decode;
pub mod document;
pub mod error;
pub mod external;
pub mod json;
pub mod models;
pub mod rawg;
pub mod routes;
pub mod text;
