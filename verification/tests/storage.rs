use weather_cache::data_fetcher::dto::{Coordinates as FetchedCoordinates, CoordinatesResponse, Weather};
use weather_cache::datetime::DateTime;
use weather_cache::storage::dto::{Coordinates, StorageResponse};
use weather_cache::storage::lookup::{Action, Event, Stage, WeatherLookup};
use weather_cache::storage::{place_coordinates, weather_tuple, PlaceCoordinates, StorageError, WeatherTuple};

const NANOS: i128 = 1_000_000_000;

fn at(seconds: i128) -> DateTime {
    DateTime { unix_timestamp_nanos: seconds * NANOS, offset_seconds: 3600 }
}

fn weather(point: i128, expiration: i128, temperature: f64) -> Weather<f64> {
    Weather { point_in_time: at(point), expiration: at(expiration), temperature_celsius: temperature }
}

fn berlin() -> Coordinates<f64> {
    Coordinates { longitude: 13.41053, latitude: 52.52437 }
}

fn stored_row(expiration: i128) -> WeatherTuple<f64> {
    weather_tuple(&"Berlin".to_string(), 7, weather(expiration - 900, expiration, 4.0))
}

fn finish(action: Action<f64>) -> Result<Option<StorageResponse<f64>>, StorageError> {
    match action {
        Action::Finish { outcome } => outcome,
        _ => panic!("expected the lookup to finish"),
    }
}

#[test]
fn lookup_starts_with_the_stored_weather() {
    let (lookup, action) = WeatherLookup::<f64>::start(7, "Berlin".to_string());
    assert!(matches!(action, Action::ReadStoredWeather { ref place_name } if place_name == "Berlin"));
    assert!(matches!(lookup.stage, Stage::ReadingStoredWeather));
    assert!(lookup.expects(&Event::StoredWeather(Ok(None))));
    assert!(!lookup.expects(&Event::Clock(0)));
}

#[test]
fn fresh_weather_is_served_from_cache() {
    let (lookup, _) = WeatherLookup::<f64>::start(7, "Berlin".to_string());
    let (lookup, action) = lookup.step(Event::StoredWeather(Ok(Some(stored_row(2_000)))));
    assert!(matches!(action, Action::ReadClock));
    let (lookup, action) = lookup.step(Event::Clock(1_999 * NANOS));
    assert!(matches!(action, Action::ReadStoredCoordinates { ref place_name } if place_name == "Berlin"));
    let (lookup, action) = lookup.step(Event::StoredCoordinates(Ok(Some(berlin()))));
    assert!(matches!(lookup.stage, Stage::Finished));
    let answer = finish(action).ok().expect("ok").expect("some");
    assert!(answer.cached);
    assert_eq!(answer.coordinates.expect("coordinates").latitude, 52.52437);
    let w = answer.weather.expect("weather");
    assert_eq!(w.temperature_celsius, 4.0);
    assert_eq!(w.expiration.unix_timestamp_nanos, 2_000 * NANOS);
}

#[test]
fn cached_weather_without_coordinates_is_an_error() {
    let (lookup, _) = WeatherLookup::<f64>::start(7, "Berlin".to_string());
    let (lookup, _) = lookup.step(Event::StoredWeather(Ok(Some(stored_row(2_000)))));
    let (lookup, _) = lookup.step(Event::Clock(0));
    let (_, action) = lookup.step(Event::StoredCoordinates(Ok(None)));
    match finish(action) {
        Err(e) => {
            assert!(matches!(e, StorageError::MissingCachedCoordinates));
            assert_eq!(e.message(), "Coordinates should be known if weather is cached");
        }
        _ => panic!("expected an error"),
    }
}

#[test]
fn expired_weather_is_fetched_and_stored_again() {
    let (lookup, _) = WeatherLookup::<f64>::start(7, "Berlin".to_string());
    let (lookup, _) = lookup.step(Event::StoredWeather(Ok(Some(stored_row(2_000)))));
    // The weather expires at the instant 2000 s: at that instant it is stale.
    let (lookup, action) = lookup.step(Event::Clock(2_000 * NANOS));
    assert!(matches!(action, Action::ReadStoredCoordinates { .. }));
    assert!(matches!(lookup.stage, Stage::ReadingStoredCoordinates));
    let (lookup, action) = lookup.step(Event::StoredCoordinates(Ok(Some(berlin()))));
    match action {
        Action::FetchWeather { latitude, longitude } => {
            assert_eq!(latitude, 52.52437);
            assert_eq!(longitude, 13.41053);
        }
        _ => panic!("expected a weather request"),
    }
    let fresh = weather(2_100, 3_000, -1.5);
    let (lookup, action) = lookup.step(Event::FetchedWeather(Ok(Some(fresh))));
    match action {
        Action::StoreWeather { tuple } => {
            assert_eq!(tuple.place_name, "Berlin");
            assert_eq!(tuple.bucket_id, 7);
            assert_eq!(tuple.point_in_time.unix_timestamp_nanos, 2_100 * NANOS);
            assert_eq!(tuple.expiration.unix_timestamp_nanos, 3_000 * NANOS);
            assert_eq!(tuple.weather_data.temperature_celsius, -1.5);
        }
        _ => panic!("expected the weather to be stored"),
    }
    let (_, action) = lookup.step(Event::WeatherStored(Ok(())));
    let answer = finish(action).ok().expect("ok").expect("some");
    assert!(!answer.cached);
    assert_eq!(answer.weather.expect("weather").temperature_celsius, -1.5);
}

#[test]
fn unknown_coordinates_are_fetched_and_stored() {
    let (lookup, _) = WeatherLookup::<f64>::start(3, "Paris".to_string());
    let (lookup, action) = lookup.step(Event::StoredWeather(Ok(None)));
    assert!(matches!(action, Action::ReadStoredCoordinates { .. }));
    let (lookup, action) = lookup.step(Event::StoredCoordinates(Ok(None)));
    assert!(matches!(action, Action::FetchCoordinates { ref place_name } if place_name == "Paris"));
    let found = CoordinatesResponse { coordinates: Some(FetchedCoordinates { latitude: 48.85, longitude: 2.35 }) };
    let (lookup, action) = lookup.step(Event::FetchedCoordinates(Ok(Some(found))));
    match action {
        Action::StoreCoordinates { bucket_id, place_name, coordinates } => {
            assert_eq!(bucket_id, 3);
            assert_eq!(place_name, "Paris");
            assert_eq!(coordinates.latitude, 48.85);
            assert_eq!(coordinates.longitude, 2.35);
        }
        _ => panic!("expected the coordinates to be stored"),
    }
    let (lookup, action) = lookup.step(Event::CoordinatesStored(Ok(())));
    assert!(matches!(action, Action::FetchWeather { latitude, longitude } if latitude == 48.85 && longitude == 2.35));
    let (_, action) = lookup.step(Event::FetchedWeather(Ok(None)));
    let answer = finish(action).ok().expect("ok").expect("some");
    assert!(!answer.cached);
    assert!(answer.weather.is_none());
    assert_eq!(answer.coordinates.expect("coordinates").longitude, 2.35);
}

#[test]
fn unknown_place_is_answered_as_cached_without_data() {
    let (lookup, _) = WeatherLookup::<f64>::start(3, "Atlantis".to_string());
    let (lookup, _) = lookup.step(Event::StoredWeather(Ok(None)));
    let (lookup, _) = lookup.step(Event::StoredCoordinates(Ok(None)));
    let (_, action) = lookup.step(Event::FetchedCoordinates(Ok(Some(CoordinatesResponse { coordinates: None }))));
    let answer = finish(action).ok().expect("ok").expect("some");
    assert!(answer.cached);
    assert!(answer.coordinates.is_none());
    assert!(answer.weather.is_none());
}

#[test]
fn transient_failure_of_the_data_fetcher_gives_no_answer() {
    let (lookup, _) = WeatherLookup::<f64>::start(3, "Paris".to_string());
    let (lookup, _) = lookup.step(Event::StoredWeather(Ok(None)));
    let (lookup, _) = lookup.step(Event::StoredCoordinates(Ok(None)));
    let (_, action) = lookup.step(Event::FetchedCoordinates(Ok(None)));
    assert!(matches!(finish(action), Ok(None)));
}

#[test]
fn failures_end_the_lookup_with_errors() {
    let (lookup, _) = WeatherLookup::<f64>::start(3, "Paris".to_string());
    let (_, action) = lookup.step(Event::StoredWeather(Err("space not found".to_string())));
    match finish(action) {
        Err(e) => assert_eq!(e.message(), "space not found"),
        _ => panic!("expected an error"),
    }

    let (lookup, _) = WeatherLookup::<f64>::start(3, "Paris".to_string());
    let (lookup, _) = lookup.step(Event::StoredWeather(Ok(None)));
    let (lookup, _) = lookup.step(Event::StoredCoordinates(Ok(None)));
    let (_, action) = lookup.step(Event::FetchedCoordinates(Err(())));
    match finish(action) {
        Err(e) => assert_eq!(e.message(), "Unexpected error while fetching coordinates"),
        _ => panic!("expected an error"),
    }

    let (lookup, _) = WeatherLookup::<f64>::start(3, "Paris".to_string());
    let (lookup, _) = lookup.step(Event::StoredWeather(Ok(None)));
    let (lookup, _) = lookup.step(Event::StoredCoordinates(Ok(Some(berlin()))));
    let (_, action) = lookup.step(Event::FetchedWeather(Err(())));
    match finish(action) {
        Err(e) => assert_eq!(e.message(), "Unexpected error while fetching weather"),
        _ => panic!("expected an error"),
    }

    let (lookup, _) = WeatherLookup::<f64>::start(3, "Paris".to_string());
    let (lookup, _) = lookup.step(Event::StoredWeather(Ok(None)));
    let (lookup, _) = lookup.step(Event::StoredCoordinates(Ok(Some(berlin()))));
    let (lookup, _) = lookup.step(Event::FetchedWeather(Ok(Some(weather(0, 10, 1.0)))));
    let (_, action) = lookup.step(Event::WeatherStored(Err("disk full".to_string())));
    assert!(matches!(finish(action), Err(StorageError::Storage(ref m)) if m == "disk full"));
}

#[test]
fn place_coordinates_from_the_data_fetcher() {
    let found = CoordinatesResponse { coordinates: Some(FetchedCoordinates { latitude: 1.5, longitude: -2.5 }) };
    match place_coordinates(found) {
        PlaceCoordinates::Value(c) => {
            assert_eq!(c.latitude, 1.5);
            assert_eq!(c.longitude, -2.5);
        }
        PlaceCoordinates::CouldNotBeFound => panic!("expected coordinates"),
    }
    let missing: CoordinatesResponse<f64> = CoordinatesResponse { coordinates: None };
    assert!(matches!(place_coordinates(missing), PlaceCoordinates::CouldNotBeFound));
}

#[test]
fn weather_row_repeats_the_weather_times() {
    let row = weather_tuple(&"Oslo".to_string(), 42, weather(100, 200, 0.5));
    assert_eq!(row.place_name, "Oslo");
    assert_eq!(row.bucket_id, 42);
    assert_eq!(row.point_in_time.unix_timestamp_nanos, 100 * NANOS);
    assert_eq!(row.expiration.unix_timestamp_nanos, 200 * NANOS);
    assert_eq!(row.weather_data.expiration.unix_timestamp_nanos, 200 * NANOS);
}

#[test]
fn stored_weather_is_served_by_a_later_lookup() {
    // A first lookup fetches the weather and stores a row for it.
    let (lookup, _) = WeatherLookup::<f64>::start(7, "Berlin".to_string());
    let (lookup, _) = lookup.step(Event::StoredWeather(Ok(None)));
    let (lookup, _) = lookup.step(Event::StoredCoordinates(Ok(Some(berlin()))));
    let (lookup, action) = lookup.step(Event::FetchedWeather(Ok(Some(weather(5_000, 5_900, 7.25)))));
    let row = match action {
        Action::StoreWeather { tuple } => tuple,
        _ => panic!("expected the weather to be stored"),
    };
    let (_, action) = lookup.step(Event::WeatherStored(Ok(())));
    assert!(!finish(action).ok().expect("ok").expect("some").cached);

    // A later lookup reads that row back before it expires.
    let (lookup, _) = WeatherLookup::<f64>::start(7, "Berlin".to_string());
    let (lookup, _) = lookup.step(Event::StoredWeather(Ok(Some(row))));
    let (lookup, _) = lookup.step(Event::Clock(5_899 * NANOS));
    let (_, action) = lookup.step(Event::StoredCoordinates(Ok(Some(berlin()))));
    let answer = finish(action).ok().expect("ok").expect("some");
    assert!(answer.cached);
    assert_eq!(answer.weather.expect("weather").temperature_celsius, 7.25);
}
