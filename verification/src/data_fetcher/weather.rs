//! Current weather at a place, from the Open Meteo forecast API.

use vstd::prelude::*;
use vstd::string::StringExecFns;
use crate::data_fetcher::dto;
use crate::datetime::{
    iso8601_date_time_nanos, local_in_range, max_offset_seconds, parse_iso8601_date_time,
    utc_offset_whole_seconds, DateTime, MAX_LOCAL_NANOS, MIN_LOCAL_NANOS, NANOS_PER_SECOND,
};

verus! {

/// The forecast API's answer.
pub struct MeteoApiWeatherResponse<F> {
    /// Offset of the place's time zone from UTC, in seconds.
    pub utc_offset_seconds: i32,
    pub current: MeteoApiCurrentWeather<F>,
}

/// The current weather in the forecast API's answer.
pub struct MeteoApiCurrentWeather<F> {
    /// Local date and time of the measurement, in ISO 8601 without offset.
    pub time: String,
    /// For how many seconds the measurement stays current.
    pub interval: i64,
    pub temperature: F,
}

/// Why the forecast API's answer could not be read.
pub enum WeatherError {
    /// The time zone offset is out of range; the text of the error.
    InvalidUtcOffset(String),
    /// The time of the measurement is not in the expected format.
    UnexpectedTimeFormat,
}

impl WeatherError {
    /// The text of the error.
    pub open spec fn spec_message(&self) -> Seq<char> {
        match self {
            WeatherError::InvalidUtcOffset(m) => m@,
            WeatherError::UnexpectedTimeFormat => "Unexpected error while parsing Open Meteo API response"@,
        }
    }

    /// Returns the text of the error.
    pub fn message(&self) -> (text: String)
        ensures
            text@ == self.spec_message(),
    {
        match self {
            WeatherError::InvalidUtcOffset(m) => m.clone(),
            WeatherError::UnexpectedTimeFormat => String::from_str(
                "Unexpected error while parsing Open Meteo API response",
            ),
        }
    }
}

/// The local date-time at which a measurement taken at local date-time
/// `local_nanos` stops being current.
pub open spec fn expiration_local_nanos(local_nanos: int, interval: i64) -> int {
    local_nanos + interval * NANOS_PER_SECOND
}

/// The weather measured at local date-time `local_nanos` (on a clock that is
/// `utc_offset_seconds` ahead of UTC), current for `interval` seconds.
pub open spec fn spec_weather_at<F>(utc_offset_seconds: i32, local_nanos: i128, interval: i64, temperature: F) -> dto::Weather<F> {
    let point = local_nanos - utc_offset_seconds * NANOS_PER_SECOND;
    dto::Weather {
        point_in_time: DateTime { unix_timestamp_nanos: point as i128, offset_seconds: utc_offset_seconds },
        expiration: DateTime {
            unix_timestamp_nanos: (point + interval * NANOS_PER_SECOND) as i128,
            offset_seconds: utc_offset_seconds,
        },
        temperature_celsius: temperature,
    }
}

/// Builds the weather measured at a local date-time in the given offset from
/// UTC, current for `interval` seconds.
pub fn weather_at<F: Copy>(utc_offset_seconds: i32, local_nanos: i128, interval: i64, temperature: F) -> (w: dto::Weather<F>)
    requires
        local_in_range(local_nanos as int),
        local_in_range(expiration_local_nanos(local_nanos as int, interval)),
    ensures
        w == spec_weather_at(utc_offset_seconds, local_nanos, interval, temperature),
{
    let point = local_nanos - (utc_offset_seconds as i128) * NANOS_PER_SECOND;
    let expiration = point + (interval as i128) * NANOS_PER_SECOND;
    dto::Weather {
        point_in_time: DateTime { unix_timestamp_nanos: point, offset_seconds: utc_offset_seconds },
        expiration: DateTime { unix_timestamp_nanos: expiration, offset_seconds: utc_offset_seconds },
        temperature_celsius: temperature,
    }
}

/// What `convert` answers for the forecast API's answer.
pub open spec fn spec_convert<F>(data: MeteoApiWeatherResponse<F>, r: Option<Result<dto::Weather<F>, WeatherError>>) -> bool {
    if !(-max_offset_seconds() <= data.utc_offset_seconds <= max_offset_seconds()) {
        r matches Some(Err(WeatherError::InvalidUtcOffset(m))) && m@ == "seconds was not in range"@
    } else {
        match iso8601_date_time_nanos(data.current.time@) {
            None => r matches Some(Err(WeatherError::UnexpectedTimeFormat)),
            Some(local) => if local_in_range(expiration_local_nanos(local as int, data.current.interval)) {
                r == Some(Ok::<dto::Weather<F>, WeatherError>(
                    spec_weather_at(data.utc_offset_seconds, local, data.current.interval, data.current.temperature),
                ))
            } else {
                r is None
            },
        }
    }
}

/// Reads the forecast API's answer: the measurement's local time, read in
/// the place's offset from UTC, is the weather's point in time, and it
/// expires `interval` seconds later.
///
/// `None` when the expiration falls outside the dates that the `time` crate
/// represents, where adding the interval fails.
pub fn convert<F: Copy>(data: MeteoApiWeatherResponse<F>) -> (r: Option<Result<dto::Weather<F>, WeatherError>>)
    ensures
        spec_convert(data, r),
        r matches Some(Ok(w)) ==> {
            &&& iso8601_date_time_nanos(data.current.time@) matches Some(local)
            &&& w.point_in_time.unix_timestamp_nanos == local - data.utc_offset_seconds * NANOS_PER_SECOND
            &&& w.point_in_time.offset_seconds == data.utc_offset_seconds
            &&& w.expiration.unix_timestamp_nanos == w.point_in_time.unix_timestamp_nanos
                + data.current.interval * NANOS_PER_SECOND
            &&& w.expiration.offset_seconds == data.utc_offset_seconds
            &&& w.temperature_celsius == data.current.temperature
        },
{
    let offset = match utc_offset_whole_seconds(data.utc_offset_seconds) {
        Ok(offset) => offset,
        Err(m) => {
            return Some(Err(WeatherError::InvalidUtcOffset(m)));
        },
    };
    let local = match parse_iso8601_date_time(data.current.time.as_str()) {
        Some(local) => local,
        None => {
            return Some(Err(WeatherError::UnexpectedTimeFormat));
        },
    };
    let interval = data.current.interval;
    let expiration = local + (interval as i128) * NANOS_PER_SECOND;
    if expiration < MIN_LOCAL_NANOS || expiration > MAX_LOCAL_NANOS {
        return None;
    }
    Some(Ok(weather_at(offset, local, interval, data.current.temperature)))
}

/// The weather expires `interval` seconds after its point in time, and
/// both are written in the place's offset from UTC.
pub proof fn lemma_expiration_follows_interval<F>(utc_offset_seconds: i32, local_nanos: i128, interval: i64, temperature: F)
    requires
        local_in_range(local_nanos as int),
        local_in_range(expiration_local_nanos(local_nanos as int, interval)),
    ensures
        ({
            let w = spec_weather_at(utc_offset_seconds, local_nanos, interval, temperature);
            &&& w.expiration.unix_timestamp_nanos - w.point_in_time.unix_timestamp_nanos == interval * NANOS_PER_SECOND
            &&& w.point_in_time.unix_timestamp_nanos == local_nanos - utc_offset_seconds * NANOS_PER_SECOND
            &&& w.point_in_time.offset_seconds == utc_offset_seconds
            &&& w.expiration.offset_seconds == utc_offset_seconds
            &&& w.temperature_celsius == temperature
        }),
{
}

/// Every accepted answer gives the instant of the measurement's local time
/// read in the API's own offset from UTC (whatever that offset is, whole
/// hours or not), writes it in that offset, and expires `interval` seconds
/// later; the temperature is the API's.
pub proof fn lemma_accepted_weather_keeps_the_offset<F>(
    data: MeteoApiWeatherResponse<F>,
    r: Option<Result<dto::Weather<F>, WeatherError>>,
)
    requires
        spec_convert(data, r),
    ensures
        r matches Some(Ok(w)) ==> {
            &&& iso8601_date_time_nanos(data.current.time@) matches Some(local)
            &&& w.point_in_time.unix_timestamp_nanos == local - data.utc_offset_seconds * NANOS_PER_SECOND
            &&& w.point_in_time.offset_seconds == data.utc_offset_seconds
            &&& w.expiration.unix_timestamp_nanos == w.point_in_time.unix_timestamp_nanos
                + data.current.interval * NANOS_PER_SECOND
            &&& w.expiration.offset_seconds == data.utc_offset_seconds
            &&& w.temperature_celsius == data.current.temperature
        },
        (data.utc_offset_seconds > 93_599 || data.utc_offset_seconds < -93_599) ==> {
            &&& r matches Some(Err(WeatherError::InvalidUtcOffset(m)))
        },
        (-93_599 <= data.utc_offset_seconds <= 93_599 && iso8601_date_time_nanos(data.current.time@) is None) ==> {
            &&& r matches Some(Err(WeatherError::UnexpectedTimeFormat))
        },
        (-93_599 <= data.utc_offset_seconds <= 93_599 && iso8601_date_time_nanos(data.current.time@) is Some
            && local_in_range(iso8601_date_time_nanos(data.current.time@)->0 + data.current.interval
            * NANOS_PER_SECOND)) ==> (r matches Some(Ok(_))),
{
}

} // verus!
