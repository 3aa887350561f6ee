# weather_cache

A weather service for Tarantool: `GET /weather?place=...` answers the current
temperature at a place, from a cache kept in the storage, refreshed from the
Open Meteo API when it expires.

- `src/` is the verified library (Verus): the data fetcher's timeout setting,
  the classification of the API's replies, the reading of its payloads, the
  storage's cache protocol as a state machine (`storage::lookup`), and the
  router's HTTP answers.  Coordinates and temperatures are a type parameter
  that the library carries without computing on it.
- `app/` is the Tarantool module around it: the Lua entry point, the stored
  procedures, the HTTP and RPC routes, the spaces, and the HTTP requests.  It
  performs the actions that a lookup asks for and hands back their outcomes.
- `tests/` runs the library on concrete values.
