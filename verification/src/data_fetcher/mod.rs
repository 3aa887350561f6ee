//! Interactions with the remote weather API (https://open-meteo.com/).

pub mod coordinates;
pub mod dto;
pub mod fetch;
pub mod settings;
pub mod weather;
