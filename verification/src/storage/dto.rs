//! Values that the storage hands to the router.

use vstd::prelude::*;
use crate::data_fetcher::dto::Weather;

verus! {

/// What the storage answers for a place.
///
/// `coordinates` is `None` when the place is unknown; `weather` is `None`
/// when the weather API was unavailable; `cached` tells whether the answer
/// came from the cache.
#[derive(Clone, Copy)]
pub struct StorageResponse<F> {
    pub coordinates: Option<Coordinates<F>>,
    pub weather: Option<Weather<F>>,
    pub cached: bool,
}

/// Coordinates of a place, in degrees.
#[derive(Clone, Copy)]
pub struct Coordinates<F> {
    pub longitude: F,
    pub latitude: F,
}

} // verus!
