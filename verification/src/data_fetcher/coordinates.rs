//! Coordinates of a place, from the Open Meteo geocoding API.

use vstd::prelude::*;
use vstd::string::StringExecFns;
use crate::data_fetcher::dto;

verus! {

/// The geocoding API's answer: the places found for a name, best first.
pub struct GeocodingResponse<F> {
    pub results: Option<Vec<GeocodingResult<F>>>,
}

/// A place found by the geocoding API.
#[derive(Clone, Copy)]
pub struct GeocodingResult<F> {
    pub latitude: F,
    pub longitude: F,
}

/// The text of the geocoding request URL before the place's name.
pub open spec fn geocoding_url_prefix() -> Seq<char> {
    "https://geocoding-api.open-meteo.com/v1/search?name="@
}

/// The text of the geocoding request URL after the place's name.
pub open spec fn geocoding_url_suffix() -> Seq<char> {
    "&count=1&language=en&format=json"@
}

/// The geocoding request URL for a place: the name is put in as it is.
pub fn geocoding_url(place_name: &str) -> (url: String)
    ensures
        url@ == geocoding_url_prefix() + place_name@ + geocoding_url_suffix(),
{
    let url = String::from_str("https://geocoding-api.open-meteo.com/v1/search?name=");
    let url = url.concat(place_name);
    url.concat("&count=1&language=en&format=json")
}

/// What `convert` answers for the geocoding API's answer: the first place
/// found, or none when nothing was found.
pub open spec fn spec_convert<F>(geo_data: GeocodingResponse<F>) -> dto::CoordinatesResponse<F> {
    match geo_data.results {
        Some(results) => if results@.len() > 0 {
            dto::CoordinatesResponse {
                coordinates: Some(dto::Coordinates { latitude: geo_data.results->0@[0].latitude, longitude: geo_data.results->0@[0].longitude }),
            }
        } else {
            dto::CoordinatesResponse { coordinates: None }
        },
        None => dto::CoordinatesResponse { coordinates: None },
    }
}

/// Takes the first place that the geocoding API found; none found means the
/// place is not known.
pub fn convert<F: Copy>(geo_data: GeocodingResponse<F>) -> (r: dto::CoordinatesResponse<F>)
    ensures
        r == spec_convert(geo_data),
        (geo_data.results is Some && geo_data.results->0@.len() > 0) ==> {
            &&& r.coordinates matches Some(c)
            &&& c.latitude == geo_data.results->0@[0].latitude
            &&& c.longitude == geo_data.results->0@[0].longitude
        },
        r.coordinates is None <==> (geo_data.results is None || geo_data.results->0@.len() == 0),
{
    match &geo_data.results {
        Some(results) => {
            if results.len() > 0 {
                let first = results[0];
                dto::CoordinatesResponse {
                    coordinates: Some(dto::Coordinates { latitude: first.latitude, longitude: first.longitude }),
                }
            } else {
                dto::CoordinatesResponse { coordinates: None }
            }
        },
        None => dto::CoordinatesResponse { coordinates: None },
    }
}

/// Whenever the geocoding API found at least one place, the first one is
/// taken, with its own latitude and longitude; the place is reported
/// unknown exactly when the API found nothing.
pub proof fn lemma_first_place_is_taken<F>(geo_data: GeocodingResponse<F>)
    ensures
        (geo_data.results is Some && geo_data.results->0@.len() > 0) ==> {
            &&& spec_convert(geo_data).coordinates matches Some(c)
            &&& c.latitude == geo_data.results->0@[0].latitude
            &&& c.longitude == geo_data.results->0@[0].longitude
        },
        spec_convert(geo_data).coordinates is None <==> (geo_data.results is None
            || geo_data.results->0@.len() == 0),
{
}

} // verus!
