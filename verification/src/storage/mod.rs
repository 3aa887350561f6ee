//! The weather cache of the storage.
//!
//! For a place, the storage answers from its cache while the stored weather
//! has not expired.  Otherwise it looks the coordinates up (in its own space,
//! else from the data fetcher, caching what it learns), then fetches the
//! weather for them and caches it.  The reads, writes, clock and remote calls
//! are performed by the host: a [`WeatherLookup`] says which one comes next
//! ([`Action`]) and takes its outcome ([`Event`]).

pub mod dto;
pub mod lookup;

use vstd::prelude::*;
use vstd::string::StringExecFns;
use crate::data_fetcher;
use crate::datetime::DateTime;

verus! {

/// What the storage knows of a place's coordinates.
#[derive(Clone, Copy)]
pub enum PlaceCoordinates<F> {
    /// The place is not listed in the geo database.
    CouldNotBeFound,
    Value(dto::Coordinates<F>),
}

/// A row of the weather space.
pub struct WeatherTuple<F> {
    pub place_name: String,
    pub bucket_id: u32,
    pub point_in_time: DateTime,
    pub expiration: DateTime,
    pub weather_data: data_fetcher::dto::Weather<F>,
}

/// Why the storage could not answer.
pub enum StorageError {
    /// A read or write of a space failed; the message is the space's.
    Storage(String),
    /// Weather was cached for the place but its coordinates were not.
    MissingCachedCoordinates,
    /// The data fetcher could not be asked for coordinates.
    CoordinatesFetchFailed,
    /// The data fetcher could not be asked for the weather.
    WeatherFetchFailed,
}

impl StorageError {
    /// The text of the error.
    pub open spec fn spec_message(&self) -> Seq<char> {
        match self {
            StorageError::Storage(m) => m@,
            StorageError::MissingCachedCoordinates => "Coordinates should be known if weather is cached"@,
            StorageError::CoordinatesFetchFailed => "Unexpected error while fetching coordinates"@,
            StorageError::WeatherFetchFailed => "Unexpected error while fetching weather"@,
        }
    }

    /// Returns the text of the error.
    pub fn message(&self) -> (text: String)
        ensures
            text@ == self.spec_message(),
    {
        match self {
            StorageError::Storage(m) => m.clone(),
            StorageError::MissingCachedCoordinates => String::from_str(
                "Coordinates should be known if weather is cached",
            ),
            StorageError::CoordinatesFetchFailed => String::from_str(
                "Unexpected error while fetching coordinates",
            ),
            StorageError::WeatherFetchFailed => String::from_str("Unexpected error while fetching weather"),
        }
    }
}

/// The coordinates that the storage keeps for the data fetcher's answer.
pub open spec fn spec_place_coordinates<F>(response: data_fetcher::dto::CoordinatesResponse<F>) -> PlaceCoordinates<F> {
    match response.coordinates {
        None => PlaceCoordinates::CouldNotBeFound,
        Some(c) => PlaceCoordinates::Value(dto::Coordinates { latitude: c.latitude, longitude: c.longitude }),
    }
}

/// Converts the data fetcher's answer into what the storage keeps.
pub fn place_coordinates<F: Copy>(response: data_fetcher::dto::CoordinatesResponse<F>) -> (r: PlaceCoordinates<F>)
    ensures
        r == spec_place_coordinates(response),
{
    match response.coordinates {
        None => PlaceCoordinates::CouldNotBeFound,
        Some(c) => PlaceCoordinates::Value(dto::Coordinates { latitude: c.latitude, longitude: c.longitude }),
    }
}

/// The row that caches `weather` for a place.
pub open spec fn spec_weather_tuple<F>(place_name: String, bucket_id: u32, weather: data_fetcher::dto::Weather<F>) -> WeatherTuple<F> {
    WeatherTuple {
        place_name,
        bucket_id,
        point_in_time: weather.point_in_time,
        expiration: weather.expiration,
        weather_data: weather,
    }
}

/// Builds the row that caches `weather` for a place.
pub fn weather_tuple<F: Copy>(place_name: &String, bucket_id: u32, weather: data_fetcher::dto::Weather<F>) -> (r: WeatherTuple<F>)
    ensures
        r == spec_weather_tuple(*place_name, bucket_id, weather),
{
    WeatherTuple {
        place_name: place_name.clone(),
        bucket_id,
        point_in_time: weather.point_in_time,
        expiration: weather.expiration,
        weather_data: weather,
    }
}

} // verus!
