//! The JSON document of the router's answers.

use vstd::prelude::*;

verus! {

/// The weather at a place, as the router answers it.
pub struct HttpResponse<F> {
    pub coordinates: HttpCoordinates<F>,
    /// When the weather was measured, in RFC 3339.
    pub point_in_time: Option<String>,
    pub temperature_celsius: Option<F>,
}

/// Coordinates of a place, in degrees.
#[derive(Clone, Copy)]
pub struct HttpCoordinates<F> {
    pub longitude: F,
    pub latitude: F,
}

} // verus!
