use weather_cache::data_fetcher::dto::Weather;
use weather_cache::datetime::DateTime;
use weather_cache::router::{
    cache_query_failure, convert_to_http_response, extract_place_parameter, find_place_parameter, http_reply,
    respond, FailureHttpResponse, HttpReply, ResponseBody,
};
use weather_cache::storage::dto::{Coordinates, StorageResponse};

const NANOS: i128 = 1_000_000_000;

fn text(reply: &HttpReply<f64>) -> &str {
    match &reply.body {
        ResponseBody::Text(t) => t.as_str(),
        ResponseBody::Json(_) => panic!("expected a text body"),
    }
}

#[test]
fn place_parameter_is_taken_from_the_query() {
    assert_eq!(extract_place_parameter("place=Berlin").ok().expect("place"), "Berlin");
    assert_eq!(extract_place_parameter("a=1&place=New+York&place=Rome").ok().expect("place"), "New York");
    assert_eq!(extract_place_parameter("place=M%C3%BCnchen").ok().expect("place"), "München");
    assert_eq!(extract_place_parameter("place=").ok().expect("place"), "");
}

#[test]
fn missing_place_parameter_is_a_bad_request() {
    for query in ["", "city=Berlin", "placeholder=1&&"] {
        match extract_place_parameter(query) {
            Err(e) => {
                assert_eq!(e.http_code, 400);
                assert_eq!(e.body, "'place' parameter is required");
            }
            Ok(_) => panic!("expected a bad request"),
        }
    }
}

#[test]
fn find_place_parameter_takes_the_first_one() {
    let pairs = vec![
        ("x".to_string(), "1".to_string()),
        ("place".to_string(), "Lima".to_string()),
        ("place".to_string(), "Quito".to_string()),
    ];
    assert_eq!(find_place_parameter(&pairs).ok().expect("place"), "Lima");
    assert!(find_place_parameter(&vec![]).is_err());
}

#[test]
fn failure_reply_has_its_code_and_text_and_no_headers() {
    let failure = FailureHttpResponse::new(418, "teapot");
    assert_eq!(failure.http_code, 418);
    assert_eq!(failure.body, "teapot");
    let reply: HttpReply<f64> = failure.into_reply();
    assert_eq!(reply.status, 418);
    assert!(reply.headers.is_empty());
    assert_eq!(text(&reply), "teapot");

    let reply: HttpReply<f64> = respond(Err(cache_query_failure()));
    assert_eq!(reply.status, 500);
    assert_eq!(text(&reply), "Unexpected error while querying cache");
}

fn berlin() -> Coordinates<f64> {
    Coordinates { longitude: 13.41053, latitude: 52.52437 }
}

fn weather() -> Weather<f64> {
    // 2024-01-15T11:30:00Z, written at UTC+1.
    Weather {
        point_in_time: DateTime { unix_timestamp_nanos: 1_705_318_200 * NANOS, offset_seconds: 3600 },
        expiration: DateTime { unix_timestamp_nanos: 1_705_319_100 * NANOS, offset_seconds: 3600 },
        temperature_celsius: 3.5,
    }
}

#[test]
fn no_storage_answer_means_unavailable() {
    let reply = convert_to_http_response::<f64>(&"Berlin".to_string(), &None).expect("reply");
    assert_eq!(reply.status, 503);
    assert!(reply.headers.is_empty());
    assert_eq!(text(&reply), "Open Meteo API is temporarily unavailable");
}

#[test]
fn unknown_place_is_not_found() {
    let response = StorageResponse { coordinates: None, weather: None, cached: true };
    let reply = convert_to_http_response::<f64>(&"Atlantis".to_string(), &Some(response)).expect("reply");
    assert_eq!(reply.status, 404);
    assert!(reply.headers.is_empty());
    assert_eq!(text(&reply), "'Atlantis' not found");
}

#[test]
fn missing_weather_is_unavailable_with_coordinates() {
    let response = StorageResponse { coordinates: Some(berlin()), weather: None, cached: false };
    let reply = convert_to_http_response(&"Berlin".to_string(), &Some(response)).expect("reply");
    assert_eq!(reply.status, 503);
    assert!(reply.headers.is_empty());
    match reply.body {
        ResponseBody::Json(doc) => {
            assert_eq!(doc.coordinates.latitude, 52.52437);
            assert_eq!(doc.coordinates.longitude, 13.41053);
            assert!(doc.point_in_time.is_none());
            assert!(doc.temperature_celsius.is_none());
        }
        ResponseBody::Text(_) => panic!("expected JSON"),
    }
}

fn header<'a>(reply: &'a HttpReply<f64>, name: &str) -> &'a str {
    reply.headers.iter().find(|(n, _)| n == name).map(|(_, v)| v.as_str()).expect("header")
}

#[test]
fn weather_is_answered_with_rfc3339_time() {
    let response = StorageResponse { coordinates: Some(berlin()), weather: Some(weather()), cached: true };
    let reply = convert_to_http_response(&"Berlin".to_string(), &Some(response)).expect("reply");
    assert_eq!(reply.status, 200);
    assert_eq!(header(&reply, "content-type"), "application/json; charset=utf8");
    assert_eq!(header(&reply, "x-cache"), "HIT");
    match reply.body {
        ResponseBody::Json(doc) => {
            assert_eq!(doc.point_in_time.as_deref(), Some("2024-01-15T12:30:00+01:00"));
            assert_eq!(doc.temperature_celsius, Some(3.5));
            assert_eq!(doc.coordinates.latitude, 52.52437);
        }
        ResponseBody::Text(_) => panic!("expected JSON"),
    }
}

#[test]
fn fetched_weather_is_a_cache_miss() {
    let response = StorageResponse { coordinates: Some(berlin()), weather: Some(weather()), cached: false };
    let reply = http_reply("Berlin", &Some(response), &"then".to_string());
    assert_eq!(reply.status, 200);
    assert_eq!(reply.headers.len(), 2);
    assert_eq!(header(&reply, "x-cache"), "MISS");
    match reply.body {
        ResponseBody::Json(doc) => assert_eq!(doc.point_in_time.as_deref(), Some("then")),
        ResponseBody::Text(_) => panic!("expected JSON"),
    }
}

#[test]
fn unwritable_point_in_time_gives_no_answer() {
    let mut w = weather();
    // Year 10000 cannot be written in RFC 3339.
    w.point_in_time = DateTime { unix_timestamp_nanos: 253_402_300_800 * NANOS, offset_seconds: 0 };
    let response = StorageResponse { coordinates: Some(berlin()), weather: Some(w), cached: true };
    assert!(convert_to_http_response(&"Berlin".to_string(), &Some(response)).is_none());
}
