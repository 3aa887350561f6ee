//! The HTTP answers of `GET /weather?place=...`.

use vstd::prelude::*;
use vstd::string::StringExecFns;
use crate::datetime::{format_date_time, rfc3339_text};
use crate::http_api::{HttpCoordinates, HttpResponse};
use crate::storage::dto::StorageResponse;

verus! {

/// An answer that ends the handling of a request early: its status code and
/// text.
pub struct FailureHttpResponse {
    pub http_code: u32,
    pub body: String,
}

/// The body of an answer: a text, or the JSON document of a weather answer.
pub enum ResponseBody<F> {
    Text(String),
    Json(HttpResponse<F>),
}

/// An answer of the router.
pub struct HttpReply<F> {
    pub status: u32,
    /// Header names and values, in order.
    pub headers: Vec<(String, String)>,
    pub body: ResponseBody<F>,
}

/// The names and values of headers.
pub open spec fn headers_view(headers: Seq<(String, String)>) -> Seq<(Seq<char>, Seq<char>)> {
    headers.map_values(|h: (String, String)| (h.0@, h.1@))
}

impl FailureHttpResponse {
    /// An early answer with the given status code and text.
    pub fn new(http_code: u32, body: &str) -> (r: FailureHttpResponse)
        ensures
            r.http_code == http_code,
            r.body@ == body@,
    {
        FailureHttpResponse { http_code, body: String::from_str(body) }
    }

    /// The answer sent for this early answer: its status code, no headers,
    /// its text as the body.
    pub fn into_reply<F>(self) -> (r: HttpReply<F>)
        ensures
            r.status == self.http_code,
            r.headers@.len() == 0,
            r.body == ResponseBody::<F>::Text(self.body),
    {
        HttpReply { status: self.http_code, headers: Vec::new(), body: ResponseBody::Text(self.body) }
    }
}

/// The answer sent for the outcome of a request: an early answer is sent as
/// [`FailureHttpResponse::into_reply`] makes it.
pub fn respond<F>(outcome: Result<HttpReply<F>, FailureHttpResponse>) -> (r: HttpReply<F>)
    ensures
        outcome matches Ok(reply) ==> r == reply,
        outcome matches Err(failure) ==> {
            &&& r.status == failure.http_code
            &&& r.headers@.len() == 0
            &&& r.body == ResponseBody::<F>::Text(failure.body)
        },
{
    match outcome {
        Ok(reply) => reply,
        Err(failure) => failure.into_reply(),
    }
}

/// The early answer when the cache could not be queried.
pub fn cache_query_failure() -> (r: FailureHttpResponse)
    ensures
        r.http_code == 500,
        r.body@ == "Unexpected error while querying cache"@,
{
    FailureHttpResponse::new(500, "Unexpected error while querying cache")
}


/// The names and values of form fields.
pub open spec fn pairs_view(pairs: Seq<(String, String)>) -> Seq<(Seq<char>, Seq<char>)> {
    pairs.map_values(|p: (String, String)| (p.0@, p.1@))
}

/// The (name, value) pairs that `form_urlencoded::parse` yields for the
/// bytes of `input`, in order.
pub uninterp spec fn form_urlencoded_pairs(input: Seq<char>) -> Seq<(Seq<char>, Seq<char>)>;

/// Splits an `application/x-www-form-urlencoded` text into its fields.
///
/// Calls `form_urlencoded::parse` on the bytes of `input` and collects the
/// decoded (name, value) pairs in order.  The contract names the result.
#[verifier::external_body]
fn parse_form_urlencoded(input: &str) -> (pairs: Vec<(String, String)>)
    ensures
        pairs_view(pairs@) == form_urlencoded_pairs(input@),
{
    form_urlencoded::parse(input.as_bytes()).map(|(name, value)| (name.into_owned(), value.into_owned())).collect()
}

/// The value of the first field named `name`, if any.
pub open spec fn first_value(pairs: Seq<(Seq<char>, Seq<char>)>, name: Seq<char>) -> Option<Seq<char>>
    decreases pairs.len(),
{
    if pairs.len() == 0 {
        None
    } else if pairs[0].0 == name {
        Some(pairs[0].1)
    } else {
        first_value(pairs.drop_first(), name)
    }
}

/// What `find_place_parameter` answers for the fields of a query.
pub open spec fn spec_place_parameter(pairs: Seq<(Seq<char>, Seq<char>)>, r: Result<String, FailureHttpResponse>) -> bool {
    match first_value(pairs, "place"@) {
        Some(value) => r matches Ok(v) && v@ == value,
        None => {
            &&& r matches Err(failure)
            &&& failure.http_code == 400
            &&& failure.body@ == "'place' parameter is required"@
        },
    }
}

/// Takes the value of the first field named `place`; a query without one is
/// answered with status 400.
pub fn find_place_parameter(pairs: &Vec<(String, String)>) -> (r: Result<String, FailureHttpResponse>)
    ensures
        spec_place_parameter(pairs_view(pairs@), r),
{
    let name = String::from_str("place");
    let ghost all = pairs_view(pairs@);
    let mut i: usize = 0;
    proof {
        assert(all.subrange(0, all.len() as int) =~= all);
    }
    while i < pairs.len()
        invariant
            i <= pairs@.len(),
            all == pairs_view(pairs@),
            name@ == "place"@,
            first_value(all, "place"@) == first_value(all.subrange(i as int, all.len() as int), "place"@),
        decreases pairs@.len() - i,
    {
        let ghost rest = all.subrange(i as int, all.len() as int);
        proof {
            assert(rest.drop_first() =~= all.subrange(i + 1, all.len() as int));
            assert(rest[0] == all[i as int]);
        }
        if pairs[i].0 == name {
            return Ok(pairs[i].1.clone());
        }
        i = i + 1;
    }
    proof {
        assert(all.subrange(i as int, all.len() as int).len() == 0);
    }
    Err(FailureHttpResponse::new(400, "'place' parameter is required"))
}

/// Takes the `place` parameter from the query string of a request; a query
/// without one is answered with status 400.
pub fn extract_place_parameter(query: &str) -> (r: Result<String, FailureHttpResponse>)
    ensures
        spec_place_parameter(form_urlencoded_pairs(query@), r),
{
    let pairs = parse_form_urlencoded(query);
    find_place_parameter(&pairs)
}

/// The JSON document for coordinates, with or without the weather.
pub open spec fn json_matches<F>(
    doc: HttpResponse<F>,
    coordinates: crate::storage::dto::Coordinates<F>,
    point_in_time: Option<Seq<char>>,
    temperature_celsius: Option<F>,
) -> bool {
    &&& doc.coordinates == HttpCoordinates { longitude: coordinates.longitude, latitude: coordinates.latitude }
    &&& crate::datetime::opt_text(doc.point_in_time) == point_in_time
    &&& doc.temperature_celsius == temperature_celsius
}

/// The answer for what the storage answered for a place, with
/// `point_in_time_text` as the written point in time of its weather.
pub open spec fn spec_http_reply<F>(
    place_name: Seq<char>,
    storage_response: Option<StorageResponse<F>>,
    point_in_time_text: Seq<char>,
    r: HttpReply<F>,
) -> bool {
    match storage_response {
        None => {
            &&& r.status == 503
            &&& r.headers@.len() == 0
            &&& r.body matches ResponseBody::Text(t) && t@ == "Open Meteo API is temporarily unavailable"@
        },
        Some(response) => match response.coordinates {
            None => {
                &&& r.status == 404
                &&& r.headers@.len() == 0
                &&& r.body matches ResponseBody::Text(t) && t@ == "'"@ + place_name + "' not found"@
            },
            Some(c) => match response.weather {
                None => {
                    &&& r.status == 503
                    &&& r.headers@.len() == 0
                    &&& r.body matches ResponseBody::Json(doc) && json_matches(doc, c, None, None)
                },
                Some(w) => {
                    &&& r.status == 200
                    &&& headers_view(r.headers@) == seq![
                        ("content-type"@, "application/json; charset=utf8"@),
                        ("x-cache"@, if response.cached { "HIT"@ } else { "MISS"@ }),
                    ]
                    &&& r.body matches ResponseBody::Json(doc)
                        && json_matches(doc, c, Some(point_in_time_text), Some(w.temperature_celsius))
                },
            },
        },
    }
}

/// Builds the answer for what the storage answered for a place:
/// - no answer: 503, the API is temporarily unavailable;
/// - no coordinates: 404, the place is not found;
/// - no weather: 503 with the coordinates as JSON;
/// - otherwise 200 with the coordinates and weather as JSON, and an
///   `x-cache` header that tells whether the storage answered from its cache.
pub fn http_reply<F: Copy>(
    place_name: &str,
    storage_response: &Option<StorageResponse<F>>,
    point_in_time_text: &String,
) -> (r: HttpReply<F>)
    ensures
        spec_http_reply(place_name@, *storage_response, point_in_time_text@, r),
        r.status == 200 ==> {
            &&& r.body matches ResponseBody::Json(doc)
            &&& storage_response matches Some(response)
            &&& storage_response->0.coordinates is Some
            &&& storage_response->0.weather is Some
            &&& r.body->Json_0.coordinates.longitude == storage_response->0.coordinates->0.longitude
            &&& r.body->Json_0.coordinates.latitude == storage_response->0.coordinates->0.latitude
            &&& r.body->Json_0.temperature_celsius == Some(storage_response->0.weather->0.temperature_celsius)
            &&& r.body->Json_0.point_in_time matches Some(t)
            &&& r.body->Json_0.point_in_time->0@ == point_in_time_text@
        },
{
    let response = match storage_response {
        None => {
            return FailureHttpResponse::new(503, "Open Meteo API is temporarily unavailable").into_reply();
        },
        Some(response) => response,
    };
    let c = match response.coordinates {
        None => {
            let text = String::from_str("'");
            let text = text.concat(place_name);
            let text = text.concat("' not found");
            return FailureHttpResponse { http_code: 404, body: text }.into_reply();
        },
        Some(c) => c,
    };
    let coordinates = HttpCoordinates { longitude: c.longitude, latitude: c.latitude };
    match response.weather {
        None => {
            let doc = HttpResponse { coordinates, point_in_time: None, temperature_celsius: None };
            HttpReply { status: 503, headers: Vec::new(), body: ResponseBody::Json(doc) }
        },
        Some(w) => {
            let doc = HttpResponse {
                coordinates,
                point_in_time: Some(point_in_time_text.clone()),
                temperature_celsius: Some(w.temperature_celsius),
            };
            let mut headers: Vec<(String, String)> = Vec::new();
            headers.push((String::from_str("content-type"), String::from_str("application/json; charset=utf8")));
            let cache = if response.cached { String::from_str("HIT") } else { String::from_str("MISS") };
            headers.push((String::from_str("x-cache"), cache));
            proof {
                assert(headers_view(headers@) =~= seq![
                    ("content-type"@, "application/json; charset=utf8"@),
                    ("x-cache"@, if response.cached { "HIT"@ } else { "MISS"@ }),
                ]);
            }
            HttpReply { status: 200, headers, body: ResponseBody::Json(doc) }
        },
    }
}

/// Whether the answer for `storage_response` shows a point in time.
pub open spec fn shows_weather<F>(storage_response: Option<StorageResponse<F>>) -> bool {
    storage_response matches Some(response) && response.coordinates is Some && response.weather is Some
}

/// Builds the answer for what the storage answered for a place, writing the
/// point in time of its weather in RFC 3339 (see [`http_reply`]).
///
/// `None` when the point in time cannot be written in RFC 3339.
pub fn convert_to_http_response<F: Copy>(
    place_name: &String,
    storage_response: &Option<StorageResponse<F>>,
) -> (r: Option<HttpReply<F>>)
    ensures
        shows_weather(*storage_response) ==> {
            let w = storage_response->0.weather->0;
            match rfc3339_text(w.point_in_time.unix_timestamp_nanos, w.point_in_time.offset_seconds) {
                None => r is None,
                Some(text) => r matches Some(reply) && spec_http_reply(place_name@, *storage_response, text, reply),
            }
        },
        !shows_weather(*storage_response) ==> {
            &&& r matches Some(reply)
            &&& forall|text: Seq<char>| spec_http_reply(place_name@, *storage_response, text, reply)
        },
{
    let no_text = String::new();
    match storage_response {
        Some(response) => {
            if response.coordinates.is_some() {
                match response.weather {
                    Some(w) => {
                        return match format_date_time(&w.point_in_time) {
                            Some(text) => Some(http_reply(place_name.as_str(), storage_response, &text)),
                            None => None,
                        };
                    },
                    None => {},
                }
            }
        },
        None => {},
    }
    Some(http_reply(place_name.as_str(), storage_response, &no_text))
}


/// Only an answer that shows the weather succeeds (status 200); every other
/// answer has status 404 or 503 and no headers.
pub proof fn lemma_success_iff_weather<F>(
    place_name: Seq<char>,
    storage_response: Option<StorageResponse<F>>,
    point_in_time_text: Seq<char>,
    r: HttpReply<F>,
)
    requires
        spec_http_reply(place_name, storage_response, point_in_time_text, r),
    ensures
        r.status == 200 <==> shows_weather(storage_response),
        r.status != 200 ==> (r.status == 404 || r.status == 503) && r.headers@.len() == 0,
{
}

/// An answer that the storage took from its cache is sent with
/// `x-cache: HIT`, one that it fetched with `x-cache: MISS`.
pub proof fn lemma_cache_header<F>(
    place_name: Seq<char>,
    response: StorageResponse<F>,
    point_in_time_text: Seq<char>,
    r: HttpReply<F>,
)
    requires
        spec_http_reply(place_name, Some(response), point_in_time_text, r),
        shows_weather(Some(response)),
    ensures
        headers_view(r.headers@)[1] == ("x-cache"@, if response.cached { "HIT"@ } else { "MISS"@ }),
{
}

/// Every JSON answer shows the storage answer's coordinates field by field
/// (longitude as longitude, latitude as latitude); a successful one also
/// shows the written point in time and the temperature of its weather.
pub proof fn lemma_json_shows_the_coordinates<F>(
    place_name: Seq<char>,
    storage_response: Option<StorageResponse<F>>,
    point_in_time_text: Seq<char>,
    r: HttpReply<F>,
)
    requires
        spec_http_reply(place_name, storage_response, point_in_time_text, r),
    ensures
        (r.body matches ResponseBody::Json(doc)) ==> {
            let doc = r.body->Json_0;
            &&& storage_response matches Some(response)
            &&& storage_response->0.coordinates is Some
            &&& doc.coordinates.longitude == storage_response->0.coordinates->0.longitude
            &&& doc.coordinates.latitude == storage_response->0.coordinates->0.latitude
        },
        r.status == 200 ==> {
            let doc = r.body->Json_0;
            &&& r.body is Json
            &&& storage_response->0.weather is Some
            &&& doc.temperature_celsius == Some(storage_response->0.weather->0.temperature_celsius)
            &&& doc.point_in_time matches Some(t)
            &&& doc.point_in_time->0@ == point_in_time_text
        },
        r.status == 503 && (r.body is Json) ==> {
            &&& r.body->Json_0.point_in_time is None
            &&& r.body->Json_0.temperature_celsius is None
        },
{
}

/// Without an answer from the storage the API is reported temporarily
/// unavailable (503); an unknown place is reported not found (404) with its
/// name; known coordinates without weather are reported unavailable (503).
pub proof fn lemma_failure_answers<F>(
    place_name: Seq<char>,
    storage_response: Option<StorageResponse<F>>,
    point_in_time_text: Seq<char>,
    r: HttpReply<F>,
)
    requires
        spec_http_reply(place_name, storage_response, point_in_time_text, r),
    ensures
        storage_response is None ==> {
            &&& r.status == 503
            &&& r.body is Text
            &&& r.body->Text_0@ == "Open Meteo API is temporarily unavailable"@
        },
        (storage_response is Some && storage_response->0.coordinates is None) ==> {
            &&& r.status == 404
            &&& r.body is Text
            &&& r.body->Text_0@ == "'"@ + place_name + "' not found"@
        },
        (storage_response is Some && storage_response->0.coordinates is Some
            && storage_response->0.weather is None) ==> {
            &&& r.status == 503
            &&& r.body is Json
        },
{
}

/// The place parameter is the value of the first field named `place`: if
/// field `i` is the first such field, its value is taken; if there is none,
/// the request is refused with status 400.
pub proof fn lemma_first_place_field(pairs: Seq<(Seq<char>, Seq<char>)>, r: Result<String, FailureHttpResponse>, i: int)
    requires
        spec_place_parameter(pairs, r),
    ensures
        (0 <= i < pairs.len() && pairs[i].0 == "place"@ && forall|j: int| 0 <= j < i ==> pairs[j].0 != "place"@) ==> {
            &&& r is Ok
            &&& r->Ok_0@ == pairs[i].1
        },
        (forall|j: int| 0 <= j < pairs.len() ==> pairs[j].0 != "place"@) ==> {
            &&& r is Err
            &&& r->Err_0.http_code == 400
            &&& r->Err_0.body@ == "'place' parameter is required"@
        },
{
    if 0 <= i < pairs.len() && pairs[i].0 == "place"@ && forall|j: int| 0 <= j < i ==> pairs[j].0 != "place"@ {
        lemma_first_value_at(pairs, "place"@, i);
    }
    if forall|j: int| 0 <= j < pairs.len() ==> pairs[j].0 != "place"@ {
        lemma_first_value_none(pairs, "place"@);
    }
}

/// The first field named `name` sits at `i` when no earlier field has that name.
proof fn lemma_first_value_at(pairs: Seq<(Seq<char>, Seq<char>)>, name: Seq<char>, i: int)
    requires
        0 <= i < pairs.len(),
        pairs[i].0 == name,
        forall|j: int| 0 <= j < i ==> pairs[j].0 != name,
    ensures
        first_value(pairs, name) == Some(pairs[i].1),
    decreases i,
{
    if i > 0 {
        let rest = pairs.drop_first();
        assert forall|j: int| 0 <= j < i - 1 implies rest[j].0 != name by {
            assert(rest[j] == pairs[j + 1]);
        }
        assert(pairs[0].0 != name);
        lemma_first_value_at(rest, name, i - 1);
    }
}

/// No field named `name` means no value.
proof fn lemma_first_value_none(pairs: Seq<(Seq<char>, Seq<char>)>, name: Seq<char>)
    requires
        forall|j: int| 0 <= j < pairs.len() ==> pairs[j].0 != name,
    ensures
        first_value(pairs, name) is None,
    decreases pairs.len(),
{
    if pairs.len() > 0 {
        let rest = pairs.drop_first();
        assert forall|j: int| 0 <= j < rest.len() implies rest[j].0 != name by {
            assert(rest[j] == pairs[j + 1]);
        }
        assert(pairs[0].0 != name);
        lemma_first_value_none(rest, name);
    }
}

} // verus!
