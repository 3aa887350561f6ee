//! The cache protocol of `get_weather_for_place`, as a state machine.

use vstd::prelude::*;
use vstd::pervasive::unreached;
use crate::data_fetcher;
use crate::data_fetcher::dto::Weather;
use crate::datetime::DateTime;
use crate::storage::dto::{Coordinates, StorageResponse};
use crate::storage::{
    place_coordinates, spec_place_coordinates, spec_weather_tuple, weather_tuple, PlaceCoordinates,
    StorageError, WeatherTuple,
};

verus! {

/// What the storage answers, or why it could not.
pub type LookupOutcome<F> = Result<Option<StorageResponse<F>>, StorageError>;

/// Where a lookup stands: which outcome it waits for.
#[derive(Clone, Copy)]
pub enum Stage<F> {
    /// Waits for the weather stored for the place.
    ReadingStoredWeather,
    /// Waits for the clock, to tell whether the stored weather expired.
    ReadingClock { expiration: DateTime, weather: Weather<F> },
    /// The stored weather is fresh; waits for the stored coordinates.
    ReadingCachedCoordinates { weather: Weather<F> },
    /// Nothing fresh is cached; waits for the stored coordinates.
    ReadingStoredCoordinates,
    /// Waits for the data fetcher's coordinates.
    FetchingCoordinates,
    /// Waits for the coordinates to be stored.
    StoringCoordinates { coordinates: Coordinates<F> },
    /// Waits for the data fetcher's weather.
    FetchingWeather { coordinates: Coordinates<F> },
    /// Waits for the weather to be stored.
    StoringWeather { coordinates: Coordinates<F>, weather: Weather<F> },
    /// The lookup has answered.
    Finished,
}

/// What the host is to do next for a lookup.
pub enum Action<F> {
    /// Read the row of the weather space for the place.
    ReadStoredWeather { place_name: String },
    /// Read the current time.
    ReadClock,
    /// Read the coordinates stored for the place.
    ReadStoredCoordinates { place_name: String },
    /// Ask the data fetcher for the place's coordinates.
    FetchCoordinates { place_name: String },
    /// Store the coordinates of the place.
    StoreCoordinates { bucket_id: u32, place_name: String, coordinates: Coordinates<F> },
    /// Ask the data fetcher for the weather at these coordinates.
    FetchWeather { latitude: F, longitude: F },
    /// Store (insert or replace) this row of the weather space.
    StoreWeather { tuple: WeatherTuple<F> },
    /// Answer the request with this outcome.
    Finish { outcome: LookupOutcome<F> },
}

/// The outcome of the last action, handed back to the lookup.
pub enum Event<F> {
    /// The stored weather row, if any, or the storage's error.
    StoredWeather(Result<Option<WeatherTuple<F>>, String>),
    /// The current time, in nanoseconds since the Unix epoch.
    Clock(i128),
    /// The stored coordinates, if any, or the storage's error.
    StoredCoordinates(Result<Option<Coordinates<F>>, String>),
    /// The data fetcher's answer (`None`: known transient failure), or `Err`
    /// when it could not be asked.
    FetchedCoordinates(Result<Option<data_fetcher::dto::CoordinatesResponse<F>>, ()>),
    /// Whether storing the coordinates succeeded.
    CoordinatesStored(Result<(), String>),
    /// The data fetcher's weather (`None`: known transient failure), or `Err`
    /// when it could not be asked.
    FetchedWeather(Result<Option<Weather<F>>, ()>),
    /// Whether storing the weather succeeded.
    WeatherStored(Result<(), String>),
}

/// One weather lookup for a place.
pub struct WeatherLookup<F> {
    pub bucket_id: u32,
    pub place_name: String,
    pub stage: Stage<F>,
}

/// The answer built from cached coordinates and cached weather.
pub open spec fn cached_answer<F>(coordinates: Coordinates<F>, weather: Weather<F>) -> StorageResponse<F> {
    StorageResponse { coordinates: Some(coordinates), weather: Some(weather), cached: true }
}

/// The answer for a place that the geo database does not list.
pub open spec fn unknown_place_answer<F>() -> StorageResponse<F> {
    StorageResponse { coordinates: None, weather: None, cached: true }
}

/// The answer built from coordinates and freshly fetched weather.
pub open spec fn fetched_answer<F>(coordinates: Coordinates<F>, weather: Option<Weather<F>>) -> StorageResponse<F> {
    StorageResponse { coordinates: Some(coordinates), weather, cached: false }
}

impl<F: Copy> WeatherLookup<F> {
    /// The lookup that starts for a place; its first action is the read of
    /// the stored weather.
    pub open spec fn spec_start(bucket_id: u32, place_name: String) -> (WeatherLookup<F>, Action<F>) {
        (
            WeatherLookup { bucket_id, place_name, stage: Stage::ReadingStoredWeather },
            Action::ReadStoredWeather { place_name },
        )
    }

    /// The same lookup, at another stage.
    pub open spec fn at(self, stage: Stage<F>) -> WeatherLookup<F> {
        WeatherLookup { bucket_id: self.bucket_id, place_name: self.place_name, stage }
    }

    /// The lookup ends with `outcome`.
    pub open spec fn finish(self, outcome: LookupOutcome<F>) -> (WeatherLookup<F>, Action<F>) {
        (self.at(Stage::Finished), Action::Finish { outcome })
    }

    /// Whether `event` answers what the lookup waits for.
    pub open spec fn accepts(self, event: Event<F>) -> bool {
        match self.stage {
            Stage::ReadingStoredWeather => event is StoredWeather,
            Stage::ReadingClock { .. } => event is Clock,
            Stage::ReadingCachedCoordinates { .. } => event is StoredCoordinates,
            Stage::ReadingStoredCoordinates => event is StoredCoordinates,
            Stage::FetchingCoordinates => event is FetchedCoordinates,
            Stage::StoringCoordinates { .. } => event is CoordinatesStored,
            Stage::FetchingWeather { .. } => event is FetchedWeather,
            Stage::StoringWeather { .. } => event is WeatherStored,
            Stage::Finished => false,
        }
    }

    /// The next lookup and action after `event`.  For an event that the
    /// lookup does not accept (see `accepts`) the value is of no meaning.
    pub open spec fn spec_step(self, event: Event<F>) -> (WeatherLookup<F>, Action<F>) {
        match self.stage {
            Stage::ReadingStoredWeather => match event {
                Event::StoredWeather(Err(m)) => self.finish(Err(StorageError::Storage(m))),
                Event::StoredWeather(Ok(Some(stored))) => (
                    self.at(Stage::ReadingClock { expiration: stored.expiration, weather: stored.weather_data }),
                    Action::ReadClock,
                ),
                _ => (
                    self.at(Stage::ReadingStoredCoordinates),
                    Action::ReadStoredCoordinates { place_name: self.place_name },
                ),
            },
            Stage::ReadingClock { expiration, weather } => match event {
                Event::Clock(now) => if now < expiration.unix_timestamp_nanos {
                    (
                        self.at(Stage::ReadingCachedCoordinates { weather }),
                        Action::ReadStoredCoordinates { place_name: self.place_name },
                    )
                } else {
                    (
                        self.at(Stage::ReadingStoredCoordinates),
                        Action::ReadStoredCoordinates { place_name: self.place_name },
                    )
                },
                _ => (self, Action::ReadClock),
            },
            Stage::ReadingCachedCoordinates { weather } => match event {
                Event::StoredCoordinates(Err(m)) => self.finish(Err(StorageError::Storage(m))),
                Event::StoredCoordinates(Ok(Some(c))) => self.finish(Ok(Some(cached_answer(c, weather)))),
                _ => self.finish(Err(StorageError::MissingCachedCoordinates)),
            },
            Stage::ReadingStoredCoordinates => match event {
                Event::StoredCoordinates(Err(m)) => self.finish(Err(StorageError::Storage(m))),
                Event::StoredCoordinates(Ok(Some(c))) => (
                    self.at(Stage::FetchingWeather { coordinates: c }),
                    Action::FetchWeather { latitude: c.latitude, longitude: c.longitude },
                ),
                _ => (
                    self.at(Stage::FetchingCoordinates),
                    Action::FetchCoordinates { place_name: self.place_name },
                ),
            },
            Stage::FetchingCoordinates => match event {
                Event::FetchedCoordinates(Err(())) => self.finish(Err(StorageError::CoordinatesFetchFailed)),
                Event::FetchedCoordinates(Ok(Some(response))) => match spec_place_coordinates(response) {
                    PlaceCoordinates::CouldNotBeFound => self.finish(Ok(Some(unknown_place_answer()))),
                    PlaceCoordinates::Value(c) => (
                        self.at(Stage::StoringCoordinates { coordinates: c }),
                        Action::StoreCoordinates {
                            bucket_id: self.bucket_id,
                            place_name: self.place_name,
                            coordinates: c,
                        },
                    ),
                },
                _ => self.finish(Ok(None)),
            },
            Stage::StoringCoordinates { coordinates } => match event {
                Event::CoordinatesStored(Err(m)) => self.finish(Err(StorageError::Storage(m))),
                _ => (
                    self.at(Stage::FetchingWeather { coordinates }),
                    Action::FetchWeather { latitude: coordinates.latitude, longitude: coordinates.longitude },
                ),
            },
            Stage::FetchingWeather { coordinates } => match event {
                Event::FetchedWeather(Err(())) => self.finish(Err(StorageError::WeatherFetchFailed)),
                Event::FetchedWeather(Ok(Some(w))) => (
                    self.at(Stage::StoringWeather { coordinates, weather: w }),
                    Action::StoreWeather { tuple: spec_weather_tuple(self.place_name, self.bucket_id, w) },
                ),
                _ => self.finish(Ok(Some(fetched_answer(coordinates, None)))),
            },
            Stage::StoringWeather { coordinates, weather } => match event {
                Event::WeatherStored(Err(m)) => self.finish(Err(StorageError::Storage(m))),
                _ => self.finish(Ok(Some(fetched_answer(coordinates, Some(weather))))),
            },
            Stage::Finished => (self, Action::ReadClock),
        }
    }

    /// Starts the lookup of the weather for a place.
    pub fn start(bucket_id: u32, place_name: String) -> (r: (WeatherLookup<F>, Action<F>))
        ensures
            r == Self::spec_start(bucket_id, place_name),
    {
        let action = Action::ReadStoredWeather { place_name: place_name.clone() };
        (WeatherLookup { bucket_id, place_name, stage: Stage::ReadingStoredWeather }, action)
    }

    /// Whether `event` answers what the lookup waits for.
    pub fn expects(&self, event: &Event<F>) -> (r: bool)
        ensures
            r == self.accepts(*event),
    {
        match self.stage {
            Stage::ReadingStoredWeather => matches!(event, Event::StoredWeather(_)),
            Stage::ReadingClock { .. } => matches!(event, Event::Clock(_)),
            Stage::ReadingCachedCoordinates { .. } => matches!(event, Event::StoredCoordinates(_)),
            Stage::ReadingStoredCoordinates => matches!(event, Event::StoredCoordinates(_)),
            Stage::FetchingCoordinates => matches!(event, Event::FetchedCoordinates(_)),
            Stage::StoringCoordinates { .. } => matches!(event, Event::CoordinatesStored(_)),
            Stage::FetchingWeather { .. } => matches!(event, Event::FetchedWeather(_)),
            Stage::StoringWeather { .. } => matches!(event, Event::WeatherStored(_)),
            Stage::Finished => false,
        }
    }

    /// Takes the outcome of the last action and says what to do next.
    pub fn step(self, event: Event<F>) -> (r: (WeatherLookup<F>, Action<F>))
        requires
            self.accepts(event),
        ensures
            r == self.spec_step(event),
    {
        let stage = self.stage;
        let WeatherLookup { bucket_id, place_name, stage: _ } = self;
        match stage {
            Stage::ReadingStoredWeather => match event {
                Event::StoredWeather(Err(m)) => {
                    (Self::finished(bucket_id, place_name), Action::Finish { outcome: Err(StorageError::Storage(m)) })
                },
                Event::StoredWeather(Ok(Some(stored))) => {
                    let next = Stage::ReadingClock { expiration: stored.expiration, weather: stored.weather_data };
                    (WeatherLookup { bucket_id, place_name, stage: next }, Action::ReadClock)
                },
                Event::StoredWeather(Ok(None)) => {
                    let action = Action::ReadStoredCoordinates { place_name: place_name.clone() };
                    (WeatherLookup { bucket_id, place_name, stage: Stage::ReadingStoredCoordinates }, action)
                },
                _ => unreached(),
            },
            Stage::ReadingClock { expiration, weather } => match event {
                Event::Clock(now) => {
                    let action = Action::ReadStoredCoordinates { place_name: place_name.clone() };
                    if now < expiration.unix_timestamp_nanos {
                        let next = Stage::ReadingCachedCoordinates { weather };
                        (WeatherLookup { bucket_id, place_name, stage: next }, action)
                    } else {
                        (WeatherLookup { bucket_id, place_name, stage: Stage::ReadingStoredCoordinates }, action)
                    }
                },
                _ => unreached(),
            },
            Stage::ReadingCachedCoordinates { weather } => match event {
                Event::StoredCoordinates(Err(m)) => {
                    (Self::finished(bucket_id, place_name), Action::Finish { outcome: Err(StorageError::Storage(m)) })
                },
                Event::StoredCoordinates(Ok(Some(c))) => {
                    let answer = StorageResponse { coordinates: Some(c), weather: Some(weather), cached: true };
                    (Self::finished(bucket_id, place_name), Action::Finish { outcome: Ok(Some(answer)) })
                },
                Event::StoredCoordinates(Ok(None)) => {
                    (
                        Self::finished(bucket_id, place_name),
                        Action::Finish { outcome: Err(StorageError::MissingCachedCoordinates) },
                    )
                },
                _ => unreached(),
            },
            Stage::ReadingStoredCoordinates => match event {
                Event::StoredCoordinates(Err(m)) => {
                    (Self::finished(bucket_id, place_name), Action::Finish { outcome: Err(StorageError::Storage(m)) })
                },
                Event::StoredCoordinates(Ok(Some(c))) => {
                    let action = Action::FetchWeather { latitude: c.latitude, longitude: c.longitude };
                    (WeatherLookup { bucket_id, place_name, stage: Stage::FetchingWeather { coordinates: c } }, action)
                },
                Event::StoredCoordinates(Ok(None)) => {
                    let action = Action::FetchCoordinates { place_name: place_name.clone() };
                    (WeatherLookup { bucket_id, place_name, stage: Stage::FetchingCoordinates }, action)
                },
                _ => unreached(),
            },
            Stage::FetchingCoordinates => match event {
                Event::FetchedCoordinates(Err(())) => {
                    (
                        Self::finished(bucket_id, place_name),
                        Action::Finish { outcome: Err(StorageError::CoordinatesFetchFailed) },
                    )
                },
                Event::FetchedCoordinates(Ok(None)) => {
                    (Self::finished(bucket_id, place_name), Action::Finish { outcome: Ok(None) })
                },
                Event::FetchedCoordinates(Ok(Some(response))) => match place_coordinates(response) {
                    PlaceCoordinates::CouldNotBeFound => {
                        let answer = StorageResponse { coordinates: None, weather: None, cached: true };
                        (Self::finished(bucket_id, place_name), Action::Finish { outcome: Ok(Some(answer)) })
                    },
                    PlaceCoordinates::Value(c) => {
                        let action = Action::StoreCoordinates {
                            bucket_id,
                            place_name: place_name.clone(),
                            coordinates: c,
                        };
                        let next = Stage::StoringCoordinates { coordinates: c };
                        (WeatherLookup { bucket_id, place_name, stage: next }, action)
                    },
                },
                _ => unreached(),
            },
            Stage::StoringCoordinates { coordinates } => match event {
                Event::CoordinatesStored(Err(m)) => {
                    (Self::finished(bucket_id, place_name), Action::Finish { outcome: Err(StorageError::Storage(m)) })
                },
                Event::CoordinatesStored(Ok(())) => {
                    let action = Action::FetchWeather {
                        latitude: coordinates.latitude,
                        longitude: coordinates.longitude,
                    };
                    (WeatherLookup { bucket_id, place_name, stage: Stage::FetchingWeather { coordinates } }, action)
                },
                _ => unreached(),
            },
            Stage::FetchingWeather { coordinates } => match event {
                Event::FetchedWeather(Err(())) => {
                    (
                        Self::finished(bucket_id, place_name),
                        Action::Finish { outcome: Err(StorageError::WeatherFetchFailed) },
                    )
                },
                Event::FetchedWeather(Ok(None)) => {
                    let answer = StorageResponse { coordinates: Some(coordinates), weather: None, cached: false };
                    (Self::finished(bucket_id, place_name), Action::Finish { outcome: Ok(Some(answer)) })
                },
                Event::FetchedWeather(Ok(Some(w))) => {
                    let action = Action::StoreWeather { tuple: weather_tuple(&place_name, bucket_id, w) };
                    let next = Stage::StoringWeather { coordinates, weather: w };
                    (WeatherLookup { bucket_id, place_name, stage: next }, action)
                },
                _ => unreached(),
            },
            Stage::StoringWeather { coordinates, weather } => match event {
                Event::WeatherStored(Err(m)) => {
                    (Self::finished(bucket_id, place_name), Action::Finish { outcome: Err(StorageError::Storage(m)) })
                },
                Event::WeatherStored(Ok(())) => {
                    let answer = StorageResponse { coordinates: Some(coordinates), weather: Some(weather), cached: false };
                    (Self::finished(bucket_id, place_name), Action::Finish { outcome: Ok(Some(answer)) })
                },
                _ => unreached(),
            },
            Stage::Finished => unreached(),
        }
    }

    /// The finished lookup.
    fn finished(bucket_id: u32, place_name: String) -> (r: WeatherLookup<F>)
        ensures
            r == (WeatherLookup::<F> { bucket_id, place_name, stage: Stage::Finished }),
    {
        WeatherLookup { bucket_id, place_name, stage: Stage::Finished }
    }
}


/// How many more actions a lookup at `stage` may ask for, its final
/// `Finish` included.
pub open spec fn remaining_actions<F>(stage: Stage<F>) -> nat {
    match stage {
        Stage::ReadingStoredWeather => 7,
        Stage::ReadingClock { .. } => 6,
        Stage::ReadingStoredCoordinates => 5,
        Stage::FetchingCoordinates => 4,
        Stage::StoringCoordinates { .. } => 3,
        Stage::FetchingWeather { .. } => 2,
        Stage::StoringWeather { .. } => 1,
        Stage::ReadingCachedCoordinates { .. } => 1,
        Stage::Finished => 0,
    }
}

/// Whether `event` reports a failure of the storage or of the data fetcher.
pub open spec fn is_failure<F>(event: Event<F>) -> bool {
    match event {
        Event::StoredWeather(r) => r is Err,
        Event::Clock(_) => false,
        Event::StoredCoordinates(r) => r is Err,
        Event::FetchedCoordinates(r) => r is Err,
        Event::CoordinatesStored(r) => r is Err,
        Event::FetchedWeather(r) => r is Err,
        Event::WeatherStored(r) => r is Err,
    }
}

/// Every lookup ends: each accepted event brings it closer to its answer,
/// it asks for at most eight actions in all, and it answers exactly when it
/// finishes.  The place and bucket never change.
pub proof fn lemma_lookup_ends<F: Copy>(lookup: WeatherLookup<F>, event: Event<F>)
    requires
        lookup.accepts(event),
    ensures
        ({
            let (next, action) = lookup.spec_step(event);
            &&& remaining_actions(next.stage) < remaining_actions(lookup.stage)
            &&& (action is Finish <==> next.stage is Finished)
            &&& next.place_name == lookup.place_name
            &&& next.bucket_id == lookup.bucket_id
        }),
        remaining_actions(WeatherLookup::<F>::spec_start(lookup.bucket_id, lookup.place_name).0.stage) + 1 == 8,
{
}

/// A failure reported by the storage or by the data fetcher ends the lookup
/// with an error.
pub proof fn lemma_failure_ends_lookup<F: Copy>(lookup: WeatherLookup<F>, event: Event<F>)
    requires
        lookup.accepts(event),
        is_failure(event),
    ensures
        ({
            let (next, action) = lookup.spec_step(event);
            &&& next.stage is Finished
            &&& action matches Action::Finish { outcome: Err(_) }
        }),
{
}

/// An answer marked `cached` was read from the cache (and then holds both
/// the coordinates and the weather) or is the answer for an unknown place
/// (and holds neither); an answer not marked `cached` holds coordinates.
pub proof fn lemma_cached_flag<F: Copy>(lookup: WeatherLookup<F>, event: Event<F>)
    requires
        lookup.accepts(event),
    ensures
        ({
            let (next, action) = lookup.spec_step(event);
            action matches Action::Finish { outcome: Ok(Some(answer)) } ==> {
                &&& answer.cached && answer.weather is Some ==> {
                    &&& lookup.stage is ReadingCachedCoordinates
                    &&& answer.coordinates is Some
                }
                &&& answer.cached && answer.weather is None ==> {
                    &&& lookup.stage is FetchingCoordinates
                    &&& answer.coordinates is None
                }
                &&& !answer.cached ==> answer.coordinates is Some
            }
        }),
{
}

/// Weather that is stored and has not expired is answered from the cache,
/// together with the stored coordinates, without asking the data fetcher.
pub proof fn lemma_fresh_weather_is_served_from_cache<F: Copy>(
    bucket_id: u32,
    place_name: String,
    stored: WeatherTuple<F>,
    now: i128,
    coordinates: Coordinates<F>,
)
    requires
        now < stored.expiration.unix_timestamp_nanos,
    ensures
        ({
            let (l0, a0) = WeatherLookup::<F>::spec_start(bucket_id, place_name);
            let e0 = Event::StoredWeather(Ok(Some(stored)));
            let (l1, a1) = l0.spec_step(e0);
            let e1 = Event::<F>::Clock(now);
            let (l2, a2) = l1.spec_step(e1);
            let e2 = Event::StoredCoordinates(Ok(Some(coordinates)));
            let (l3, a3) = l2.spec_step(e2);
            &&& a0 == Action::<F>::ReadStoredWeather { place_name }
            &&& l0.accepts(e0) && a1 == Action::<F>::ReadClock
            &&& l1.accepts(e1) && a2 == Action::<F>::ReadStoredCoordinates { place_name }
            &&& l2.accepts(e2)
            &&& a3 == (Action::Finish {
                outcome: Ok(Some(StorageResponse { coordinates: Some(coordinates), weather: Some(stored.weather_data), cached: true })),
            })
            &&& l3.stage is Finished
        }),
{
}

/// Weather that is stored and has not expired, for a place whose
/// coordinates are not stored, ends the lookup with an error.
pub proof fn lemma_cached_weather_needs_cached_coordinates<F: Copy>(
    bucket_id: u32,
    place_name: String,
    stored: WeatherTuple<F>,
    now: i128,
)
    requires
        now < stored.expiration.unix_timestamp_nanos,
    ensures
        ({
            let (l0, a0) = WeatherLookup::<F>::spec_start(bucket_id, place_name);
            let (l1, a1) = l0.spec_step(Event::StoredWeather(Ok(Some(stored))));
            let (l2, a2) = l1.spec_step(Event::Clock(now));
            let (l3, a3) = l2.spec_step(Event::StoredCoordinates(Ok(None)));
            a3 == Action::<F>::Finish { outcome: Err(StorageError::MissingCachedCoordinates) }
        }),
{
}

/// Weather that is stored but has expired is fetched again for the stored
/// coordinates, stored under the place and bucket with its own point in time
/// and expiration, and answered as not cached.
pub proof fn lemma_expired_weather_is_refreshed<F: Copy>(
    bucket_id: u32,
    place_name: String,
    stored: WeatherTuple<F>,
    now: i128,
    coordinates: Coordinates<F>,
    fetched: Weather<F>,
)
    requires
        now >= stored.expiration.unix_timestamp_nanos,
    ensures
        ({
            let (l0, a0) = WeatherLookup::<F>::spec_start(bucket_id, place_name);
            let (l1, a1) = l0.spec_step(Event::StoredWeather(Ok(Some(stored))));
            let (l2, a2) = l1.spec_step(Event::Clock(now));
            let e2 = Event::StoredCoordinates(Ok(Some(coordinates)));
            let (l3, a3) = l2.spec_step(e2);
            let e3 = Event::FetchedWeather(Ok(Some(fetched)));
            let (l4, a4) = l3.spec_step(e3);
            let e4 = Event::<F>::WeatherStored(Ok(()));
            let (l5, a5) = l4.spec_step(e4);
            &&& a2 == Action::<F>::ReadStoredCoordinates { place_name }
            &&& l2.accepts(e2)
            &&& a3 == Action::<F>::FetchWeather { latitude: coordinates.latitude, longitude: coordinates.longitude }
            &&& l3.accepts(e3)
            &&& a4 == Action::<F>::StoreWeather {
                tuple: WeatherTuple {
                    place_name,
                    bucket_id,
                    point_in_time: fetched.point_in_time,
                    expiration: fetched.expiration,
                    weather_data: fetched,
                },
            }
            &&& l4.accepts(e4)
            &&& a5 == (Action::Finish {
                outcome: Ok(Some(StorageResponse { coordinates: Some(coordinates), weather: Some(fetched), cached: false })),
            })
        }),
{
}

/// For a place of which nothing is stored, the coordinates found by the
/// data fetcher are stored under the place and bucket before the weather is
/// fetched for them.
pub proof fn lemma_found_coordinates_are_stored_first<F: Copy>(
    bucket_id: u32,
    place_name: String,
    found: data_fetcher::dto::Coordinates<F>,
)
    ensures
        ({
            let (l0, a0) = WeatherLookup::<F>::spec_start(bucket_id, place_name);
            let (l1, a1) = l0.spec_step(Event::StoredWeather(Ok(None)));
            let e1 = Event::StoredCoordinates(Ok(None));
            let (l2, a2) = l1.spec_step(e1);
            let e2 = Event::FetchedCoordinates(Ok(Some(data_fetcher::dto::CoordinatesResponse { coordinates: Some(found) })));
            let (l3, a3) = l2.spec_step(e2);
            let e3 = Event::<F>::CoordinatesStored(Ok(()));
            let (l4, a4) = l3.spec_step(e3);
            let kept = Coordinates { latitude: found.latitude, longitude: found.longitude };
            &&& a1 == Action::<F>::ReadStoredCoordinates { place_name }
            &&& l1.accepts(e1)
            &&& a2 == Action::<F>::FetchCoordinates { place_name }
            &&& l2.accepts(e2)
            &&& a3 == Action::<F>::StoreCoordinates { bucket_id, place_name, coordinates: kept }
            &&& l3.accepts(e3)
            &&& a4 == Action::<F>::FetchWeather { latitude: found.latitude, longitude: found.longitude }
            &&& l4.stage == Stage::FetchingWeather { coordinates: kept }
        }),
{
}

/// A place that the geo database does not list is answered as cached, with
/// neither coordinates nor weather, and nothing is stored for it.
pub proof fn lemma_unknown_place<F: Copy>(bucket_id: u32, place_name: String)
    ensures
        ({
            let (l0, a0) = WeatherLookup::<F>::spec_start(bucket_id, place_name);
            let (l1, a1) = l0.spec_step(Event::StoredWeather(Ok(None)));
            let (l2, a2) = l1.spec_step(Event::StoredCoordinates(Ok(None)));
            let e2 = Event::FetchedCoordinates(Ok(Some(data_fetcher::dto::CoordinatesResponse::<F> { coordinates: None })));
            let (l3, a3) = l2.spec_step(e2);
            &&& l2.accepts(e2)
            &&& a3 == (Action::<F>::Finish {
                outcome: Ok(Some(StorageResponse { coordinates: None, weather: None, cached: true })),
            })
        }),
{
}

/// A known transient failure of the data fetcher while looking up
/// coordinates is answered with no answer at all.
pub proof fn lemma_transient_coordinates_failure<F: Copy>(lookup: WeatherLookup<F>)
    requires
        (lookup.stage is FetchingCoordinates),
    ensures
        lookup.spec_step(Event::FetchedCoordinates(Ok(None))).1 == (Action::<F>::Finish { outcome: Ok(None) }),
{
}

/// Weather that a lookup fetched and stored is served from the cache by a
/// later lookup for the same place, as long as it has not expired: the row
/// the first lookup writes, read back by the second, gives the same weather.
pub proof fn lemma_stored_weather_is_served_later<F: Copy>(
    bucket_id: u32,
    place_name: String,
    coordinates: Coordinates<F>,
    fetched: Weather<F>,
    now: i128,
)
    requires
        now < fetched.expiration.unix_timestamp_nanos,
    ensures
        ({
            let refreshing = WeatherLookup::<F> {
                bucket_id,
                place_name,
                stage: Stage::FetchingWeather { coordinates },
            };
            let (_, store) = refreshing.spec_step(Event::FetchedWeather(Ok(Some(fetched))));
            &&& store matches Action::StoreWeather { tuple: row }
            &&& {
                let row = store->tuple;
                let (l0, _) = WeatherLookup::<F>::spec_start(bucket_id, place_name);
                let (l1, _) = l0.spec_step(Event::StoredWeather(Ok(Some(row))));
                let (l2, _) = l1.spec_step(Event::Clock(now));
                let (_, answer) = l2.spec_step(Event::StoredCoordinates(Ok(Some(coordinates))));
                answer == (Action::Finish {
                    outcome: Ok(Some(StorageResponse { coordinates: Some(coordinates), weather: Some(fetched), cached: true })),
                })
            }
        }),
{
}

/// The coordinates travel unchanged, field by field: a lookup asks for the
/// weather at the coordinates it read or stored, stores the coordinates the
/// data fetcher found, and answers with the coordinates it used (and the
/// weather it read or fetched).
pub proof fn lemma_coordinates_are_kept<F: Copy>(lookup: WeatherLookup<F>, event: Event<F>)
    requires
        lookup.accepts(event),
    ensures
        ({
            let (next, action) = lookup.spec_step(event);
            match lookup.stage {
                Stage::FetchingWeather { coordinates } => {
                    &&& (action matches Action::Finish { outcome: Ok(Some(answer)) }) ==> {
                        let answer = action->outcome->Ok_0->0;
                        &&& answer.coordinates is Some
                        &&& answer.coordinates->0.latitude == coordinates.latitude
                        &&& answer.coordinates->0.longitude == coordinates.longitude
                        &&& answer.weather is None
                        &&& !answer.cached
                    }
                    &&& (event matches Event::FetchedWeather(Ok(Some(w)))) ==> {
                        &&& next.stage matches Stage::StoringWeather { coordinates: kept, weather: w2 }
                        &&& next.stage->StoringWeather_coordinates.latitude == coordinates.latitude
                        &&& next.stage->StoringWeather_coordinates.longitude == coordinates.longitude
                        &&& next.stage->StoringWeather_weather == event->FetchedWeather_0->Ok_0->0
                    }
                },
                Stage::StoringWeather { coordinates, weather } => {
                    (action matches Action::Finish { outcome: Ok(Some(answer)) }) ==> {
                        let answer = action->outcome->Ok_0->0;
                        &&& answer.coordinates is Some
                        &&& answer.coordinates->0.latitude == coordinates.latitude
                        &&& answer.coordinates->0.longitude == coordinates.longitude
                        &&& answer.weather == Some(weather)
                        &&& !answer.cached
                    }
                },
                Stage::ReadingCachedCoordinates { weather } => {
                    (event matches Event::StoredCoordinates(Ok(Some(c)))) ==> {
                        let c = event->StoredCoordinates_0->Ok_0->0;
                        &&& action matches Action::Finish { outcome: Ok(Some(answer)) }
                        &&& action->outcome->Ok_0->0.coordinates is Some
                        &&& action->outcome->Ok_0->0.coordinates->0.latitude == c.latitude
                        &&& action->outcome->Ok_0->0.coordinates->0.longitude == c.longitude
                        &&& action->outcome->Ok_0->0.weather == Some(weather)
                        &&& action->outcome->Ok_0->0.cached
                    }
                },
                Stage::ReadingStoredCoordinates => {
                    (event matches Event::StoredCoordinates(Ok(Some(c)))) ==> {
                        let c = event->StoredCoordinates_0->Ok_0->0;
                        &&& action matches Action::FetchWeather { latitude, longitude }
                        &&& action->latitude == c.latitude
                        &&& action->longitude == c.longitude
                        &&& next.stage matches Stage::FetchingWeather { coordinates: kept }
                        &&& next.stage->FetchingWeather_coordinates.latitude == c.latitude
                        &&& next.stage->FetchingWeather_coordinates.longitude == c.longitude
                    }
                },
                Stage::FetchingCoordinates => {
                    (event matches Event::FetchedCoordinates(Ok(Some(response)))
                        && event->FetchedCoordinates_0->Ok_0->0.coordinates is Some) ==> {
                        let found = event->FetchedCoordinates_0->Ok_0->0.coordinates->0;
                        &&& action matches Action::StoreCoordinates { bucket_id, place_name, coordinates }
                        &&& action->bucket_id == lookup.bucket_id
                        &&& action->StoreCoordinates_place_name == lookup.place_name
                        &&& action->StoreCoordinates_coordinates.latitude == found.latitude
                        &&& action->StoreCoordinates_coordinates.longitude == found.longitude
                        &&& next.stage matches Stage::StoringCoordinates { coordinates: kept }
                        &&& next.stage->StoringCoordinates_coordinates.latitude == found.latitude
                        &&& next.stage->StoringCoordinates_coordinates.longitude == found.longitude
                    }
                },
                Stage::StoringCoordinates { coordinates } => {
                    (event matches Event::CoordinatesStored(Ok(()))) ==> {
                        &&& action matches Action::FetchWeather { latitude, longitude }
                        &&& action->latitude == coordinates.latitude
                        &&& action->longitude == coordinates.longitude
                        &&& next.stage matches Stage::FetchingWeather { coordinates: kept }
                        &&& next.stage->FetchingWeather_coordinates.latitude == coordinates.latitude
                        &&& next.stage->FetchingWeather_coordinates.longitude == coordinates.longitude
                    }
                },
                _ => true,
            }
        }),
{
}

} // verus!
