//! A weather service that answers `GET /weather?place=...` from a cache.
//!
//! The library holds the service's decisions: the request timeout setting of
//! the data fetcher, the classification of replies from the Open Meteo API,
//! the conversion of its payloads, the cache protocol of the storage (as a
//! state machine whose actions the host performs), and the HTTP answers of
//! the router.  Coordinates and temperatures are carried as a type parameter
//! `F`: the library never computes on them.

pub mod datetime;
pub mod text;
pub mod data_fetcher;
pub mod storage;
pub mod http_api;
pub mod router;
