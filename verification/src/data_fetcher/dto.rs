//! Values that the data fetcher hands to the storage.

use vstd::prelude::*;
use crate::datetime::DateTime;

verus! {

/// The answer to a coordinates request: `None` when the place is unknown.
#[derive(Clone, Copy)]
pub struct CoordinatesResponse<F> {
    pub coordinates: Option<Coordinates<F>>,
}

/// Coordinates of a place, in degrees.
#[derive(Clone, Copy)]
pub struct Coordinates<F> {
    pub latitude: F,
    pub longitude: F,
}

/// The current weather at a place and how long it stays valid.
#[derive(Clone, Copy)]
pub struct Weather<F> {
    pub point_in_time: DateTime,
    pub expiration: DateTime,
    pub temperature_celsius: F,
}

} // verus!
