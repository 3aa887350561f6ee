use vstd::prelude::*;

verus! {

/// Request timeout used when none was set, in seconds.
pub const DEFAULT_REQUEST_TIMEOUT_SECONDS: u64 = 5;

/// Settings of the data fetcher.
pub struct Settings {
    pub(crate) open_meteo_api: OpenMeteoApiSettings,
}

/// Settings of the requests to the Open Meteo API.
pub struct OpenMeteoApiSettings {
    /// Timeout of one request, in whole seconds.
    pub(crate) request_timeout: u64,
}

impl OpenMeteoApiSettings {
    /// The request timeout, in seconds.
    pub closed spec fn spec_request_timeout(&self) -> u64 {
        self.request_timeout
    }

    /// Returns the request timeout, in seconds.
    pub fn get_request_timeout(&self) -> (seconds: u64)
        ensures
            seconds == self.spec_request_timeout(),
    {
        self.request_timeout
    }
}

impl Settings {
    /// The request timeout of the Open Meteo API settings, in seconds.
    pub closed spec fn request_timeout(&self) -> u64 {
        self.open_meteo_api.request_timeout
    }

    /// The request timeout that `set_request_timeout_in_seconds` leaves for `seconds`.
    pub open spec fn timeout_for(seconds: Option<u64>) -> u64 {
        match seconds {
            Some(s) => s,
            None => DEFAULT_REQUEST_TIMEOUT_SECONDS,
        }
    }

    /// Settings with the default request timeout.
    pub fn new() -> (settings: Settings)
        ensures
            settings.request_timeout() == DEFAULT_REQUEST_TIMEOUT_SECONDS,
    {
        Settings { open_meteo_api: OpenMeteoApiSettings { request_timeout: DEFAULT_REQUEST_TIMEOUT_SECONDS } }
    }

    /// The Open Meteo API settings.
    pub fn open_meteo_api(&self) -> (api: &OpenMeteoApiSettings)
        ensures
            api.spec_request_timeout() == self.request_timeout(),
    {
        &self.open_meteo_api
    }
}

/// Sets the request timeout; `None` sets the default timeout.
pub fn set_request_timeout_in_seconds(settings: &mut Settings, seconds: Option<u64>)
    ensures
        final(settings).request_timeout() == Settings::timeout_for(seconds),
{
    let timeout = match seconds {
        Some(s) => s,
        None => DEFAULT_REQUEST_TIMEOUT_SECONDS,
    };
    settings.open_meteo_api.request_timeout = timeout;
}

/// Returns the request timeout, in seconds.
pub fn get_request_timeout_in_seconds(settings: &Settings) -> (seconds: u64)
    ensures
        seconds == settings.request_timeout(),
{
    settings.open_meteo_api.request_timeout
}

/// A read of the request timeout gives back what the last write set: the
/// given number of seconds, or the default timeout when none was given.
pub proof fn lemma_timeout_read_gives_back_write(written: Settings, seconds: Option<u64>)
    requires
        written.request_timeout() == Settings::timeout_for(seconds),
    ensures
        written.request_timeout() == (match seconds {
            Some(s) => s,
            None => DEFAULT_REQUEST_TIMEOUT_SECONDS,
        }),
{
}

} // verus!
