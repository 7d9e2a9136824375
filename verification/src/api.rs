use vstd::prelude::*;

verus! {

/// Where a city name is looked up; the name follows this text.
pub const GEO_SEARCH_PREFIX: &'static str = "https://geocoding-api.open-meteo.com/v1/search?name=";

/// What follows the city name in a look-up: one result, Romanian names, JSON.
pub const GEO_SEARCH_SUFFIX: &'static str = "&count=1&language=ro&format=json";

/// The forecast endpoint; the latitude follows this text.
pub const FORECAST_PREFIX: &'static str = "https://api.open-meteo.com/v1/forecast?latitude=";

/// The air quality endpoint; the latitude follows this text.
pub const AIR_QUALITY_PREFIX: &'static str = "https://air-quality-api.open-meteo.com/v1/air-quality?latitude=";

/// Between the latitude and the longitude of a request.
pub const LONGITUDE_KEY: &'static str = "&longitude=";

/// The quantities asked of the forecast: current conditions, a seven day
/// outlook and hourly temperatures, in the place's own time zone.
pub const FORECAST_FIELDS: &'static str = "&current=temperature_2m,weather_code,surface_pressure,wind_speed_10m,precipitation&daily=temperature_2m_max,temperature_2m_min,uv_index_max,sunrise&timezone=auto&forecast_days=7&hourly=temperature_2m";

/// The pollutants asked of the air quality service.
pub const AIR_QUALITY_FIELDS: &'static str = "&current=european_aqi,pm2_5,carbon_monoxide,nitrogen_dioxide,sulphur_dioxide,ozone";

/// A place found by the look-up. Its coordinates are kept as the decimal
/// text that goes into the forecast requests.
pub struct GeoLocation {
    pub latitude: String,
    pub longitude: String,
}

/// The body of a look-up reply: the places found, if the service sent a list.
pub struct GeoSearch {
    pub results: Option<Vec<GeoLocation>>,
}

/// What came back from one request: the transport failed, the body could
/// not be read as the expected JSON, or the body itself.
pub enum Reply<T> {
    NetworkError(String),
    ParseError(String),
    Body(T),
}

/// The look-up address for a city; the name is put in as it is.
pub open spec fn geo_search_url(city: Seq<char>) -> Seq<char> {
    GEO_SEARCH_PREFIX@ + city + GEO_SEARCH_SUFFIX@
}

/// The forecast address for a place.
pub open spec fn forecast_url(latitude: Seq<char>, longitude: Seq<char>) -> Seq<char> {
    FORECAST_PREFIX@ + latitude + LONGITUDE_KEY@ + longitude + FORECAST_FIELDS@
}

/// The air quality address for a place.
pub open spec fn air_quality_url_of(latitude: Seq<char>, longitude: Seq<char>) -> Seq<char> {
    AIR_QUALITY_PREFIX@ + latitude + LONGITUDE_KEY@ + longitude + AIR_QUALITY_FIELDS@
}

/// The text of an error: a fixed lead followed by the detail.
pub open spec fn message(lead: Seq<char>, detail: Seq<char>) -> Seq<char> {
    lead + detail
}

/// `url` is `prefix`, then the latitude exactly as given, then the
/// longitude key, then the longitude exactly as given, then `fields`: each
/// part read back from its place in the address.
pub open spec fn holds_place(
    url: Seq<char>,
    prefix: Seq<char>,
    latitude: Seq<char>,
    longitude: Seq<char>,
    fields: Seq<char>,
) -> bool {
    let lat_at = prefix.len() as int;
    let key_at = lat_at + latitude.len();
    let lon_at = key_at + LONGITUDE_KEY@.len();
    let fields_at = lon_at + longitude.len();
    &&& url.len() == fields_at + fields.len()
    &&& url.subrange(0, lat_at) == prefix
    &&& url.subrange(lat_at, key_at) == latitude
    &&& url.subrange(key_at, lon_at) == LONGITUDE_KEY@
    &&& url.subrange(lon_at, fields_at) == longitude
    &&& url.subrange(fields_at, url.len() as int) == fields
}

/// The look-up address holds the whole city name as typed, whatever its
/// length: reading the address between the fixed prefix and the fixed suffix
/// gives back the name.
pub proof fn lemma_geo_search_url_holds_city(city: Seq<char>)
    ensures
        geo_search_url(city).len() == GEO_SEARCH_PREFIX@.len() + city.len() + GEO_SEARCH_SUFFIX@.len(),
        geo_search_url(city).subrange(0, GEO_SEARCH_PREFIX@.len() as int) == GEO_SEARCH_PREFIX@,
        geo_search_url(city).subrange(GEO_SEARCH_PREFIX@.len() as int, (GEO_SEARCH_PREFIX@.len() + city.len()) as int)
            == city,
        geo_search_url(city).subrange(
            (GEO_SEARCH_PREFIX@.len() + city.len()) as int,
            geo_search_url(city).len() as int,
        ) == GEO_SEARCH_SUFFIX@,
{
    let u = geo_search_url(city);
    let p = GEO_SEARCH_PREFIX@.len() as int;
    assert(u.subrange(0, p) =~= GEO_SEARCH_PREFIX@);
    assert(u.subrange(p, p + city.len()) =~= city);
    assert(u.subrange(p + city.len(), u.len() as int) =~= GEO_SEARCH_SUFFIX@);
}

/// Two look-ups of different city names go to different addresses.
pub proof fn lemma_geo_search_url_distinguishes_cities(a: Seq<char>, b: Seq<char>)
    requires
        a != b,
    ensures
        geo_search_url(a) != geo_search_url(b),
{
    lemma_geo_search_url_holds_city(a);
    lemma_geo_search_url_holds_city(b);
    if geo_search_url(a) == geo_search_url(b) {
        assert(a.len() == b.len());
    }
}

proof fn lemma_five_parts(p: Seq<char>, x: Seq<char>, y: Seq<char>, f: Seq<char>)
    ensures
        holds_place(p + x + LONGITUDE_KEY@ + y + f, p, x, y, f),
{
    let u = p + x + LONGITUDE_KEY@ + y + f;
    let a = p.len() as int;
    let b = a + x.len();
    let c = b + LONGITUDE_KEY@.len();
    let d = c + y.len();
    assert(u.subrange(0, a) =~= p);
    assert(u.subrange(a, b) =~= x);
    assert(u.subrange(b, c) =~= LONGITUDE_KEY@);
    assert(u.subrange(c, d) =~= y);
    assert(u.subrange(d, u.len() as int) =~= f);
}

/// The forecast address holds the latitude and the longitude exactly as
/// given, signs and all, each in its place.
pub proof fn lemma_forecast_url_holds_place(latitude: Seq<char>, longitude: Seq<char>)
    ensures
        holds_place(forecast_url(latitude, longitude), FORECAST_PREFIX@, latitude, longitude, FORECAST_FIELDS@),
{
    lemma_five_parts(FORECAST_PREFIX@, latitude, longitude, FORECAST_FIELDS@);
}

/// The air quality address holds the latitude and the longitude exactly as
/// given, signs and all, each in its place.
pub proof fn lemma_air_quality_url_holds_place(latitude: Seq<char>, longitude: Seq<char>)
    ensures
        holds_place(
            air_quality_url_of(latitude, longitude),
            AIR_QUALITY_PREFIX@,
            latitude,
            longitude,
            AIR_QUALITY_FIELDS@,
        ),
{
    lemma_five_parts(AIR_QUALITY_PREFIX@, latitude, longitude, AIR_QUALITY_FIELDS@);
}

/// Places whose coordinate texts have the same lengths but differ get
/// different forecast and air quality addresses.
pub proof fn lemma_urls_distinguish_places(a_lat: Seq<char>, a_lon: Seq<char>, b_lat: Seq<char>, b_lon: Seq<char>)
    requires
        a_lat.len() == b_lat.len(),
        a_lon.len() == b_lon.len(),
        a_lat != b_lat || a_lon != b_lon,
    ensures
        forecast_url(a_lat, a_lon) != forecast_url(b_lat, b_lon),
        air_quality_url_of(a_lat, a_lon) != air_quality_url_of(b_lat, b_lon),
{
    lemma_forecast_url_holds_place(a_lat, a_lon);
    lemma_forecast_url_holds_place(b_lat, b_lon);
    lemma_air_quality_url_holds_place(a_lat, a_lon);
    lemma_air_quality_url_holds_place(b_lat, b_lon);
}

fn join(lead: &str, detail: &str) -> (text: String)
    ensures
        text@ == lead@ + detail@,
{
    let mut text = String::from_str(lead);
    text.append(detail);
    text
}

/// The address that looks `city` up.
pub fn geo_url(city: &str) -> (url: String)
    ensures
        url@ == geo_search_url(city@),
        url@.len() == GEO_SEARCH_PREFIX@.len() + city@.len() + GEO_SEARCH_SUFFIX@.len(),
        url@.subrange(0, GEO_SEARCH_PREFIX@.len() as int) == GEO_SEARCH_PREFIX@,
        url@.subrange(GEO_SEARCH_PREFIX@.len() as int, (GEO_SEARCH_PREFIX@.len() + city@.len()) as int) == city@,
        url@.subrange((GEO_SEARCH_PREFIX@.len() + city@.len()) as int, url@.len() as int) == GEO_SEARCH_SUFFIX@,
{
    let mut url = String::from_str(GEO_SEARCH_PREFIX);
    url.append(city);
    url.append(GEO_SEARCH_SUFFIX);
    proof {
        lemma_geo_search_url_holds_city(city@);
    }
    url
}

/// The address of the forecast for `place`.
pub fn weather_url(place: &GeoLocation) -> (url: String)
    ensures
        url@ == forecast_url(place.latitude@, place.longitude@),
        holds_place(url@, FORECAST_PREFIX@, place.latitude@, place.longitude@, FORECAST_FIELDS@),
{
    proof {
        lemma_forecast_url_holds_place(place.latitude@, place.longitude@);
    }
    let mut url = String::from_str(FORECAST_PREFIX);
    url.append(place.latitude.as_str());
    url.append(LONGITUDE_KEY);
    url.append(place.longitude.as_str());
    url.append(FORECAST_FIELDS);
    url
}

/// The address of the air quality report for `place`.
pub fn air_quality_url(place: &GeoLocation) -> (url: String)
    ensures
        url@ == air_quality_url_of(place.latitude@, place.longitude@),
        holds_place(url@, AIR_QUALITY_PREFIX@, place.latitude@, place.longitude@, AIR_QUALITY_FIELDS@),
{
    proof {
        lemma_air_quality_url_holds_place(place.latitude@, place.longitude@);
    }
    let mut url = String::from_str(AIR_QUALITY_PREFIX);
    url.append(place.latitude.as_str());
    url.append(LONGITUDE_KEY);
    url.append(place.longitude.as_str());
    url.append(AIR_QUALITY_FIELDS);
    url
}

/// The error a look-up reply ends the search with, if any.
pub open spec fn lookup_error(reply: Reply<GeoSearch>) -> Option<Seq<char>> {
    match reply {
        Reply::NetworkError(e) => Some(message("GEO network error: "@, e@)),
        Reply::ParseError(e) => Some(message("JSON parsing error: "@, e@)),
        Reply::Body(search) => match search.results {
            None => Some("No results received"@),
            Some(found) => if found@.len() == 0 {
                Some("City not found"@)
            } else {
                None
            },
        },
    }
}

/// The place a look-up reply without error names: the first one found.
pub open spec fn first_place(reply: Reply<GeoSearch>) -> GeoLocation {
    match reply {
        Reply::Body(search) => match search.results {
            Some(found) => found@[0],
            None => arbitrary(),
        },
        _ => arbitrary(),
    }
}

/// Reads the look-up reply: the first place found, or the error that the
/// dashboard shows.
pub fn locate(reply: Reply<GeoSearch>) -> (place: Result<GeoLocation, String>)
    ensures
        match lookup_error(reply) {
            Some(m) => place matches Err(e) && e@ == m,
            None => place matches Ok(p) && p.latitude@ == first_place(reply).latitude@
                && p.longitude@ == first_place(reply).longitude@,
        },
        match reply {
            Reply::Body(search) => match search.results {
                Some(found) => if found@.len() > 0 {
                    place matches Ok(p) && p.latitude@ == found@[0].latitude@
                        && p.longitude@ == found@[0].longitude@
                } else {
                    place matches Err(e) && e@ == "City not found"@
                },
                None => true,
            },
            _ => true,
        },
{
    match reply {
        Reply::NetworkError(e) => Err(join("GEO network error: ", e.as_str())),
        Reply::ParseError(e) => Err(join("JSON parsing error: ", e.as_str())),
        Reply::Body(search) => match search.results {
            None => Err(String::from_str("No results received")),
            Some(found) => {
                if found.len() == 0 {
                    Err(String::from_str("City not found"))
                } else {
                    let first = &found[0];
                    Ok(GeoLocation { latitude: first.latitude.clone(), longitude: first.longitude.clone() })
                }
            },
        },
    }
}

/// A look-up that lists at least one place, however many, is no error, and
/// the search goes on with the first place listed.
pub proof fn lemma_lookup_accepts_found_places(found: Vec<GeoLocation>)
    requires
        found@.len() > 0,
    ensures
        lookup_error(Reply::Body(GeoSearch { results: Some(found) })) is None,
        first_place(Reply::Body(GeoSearch { results: Some(found) })) == found@[0],
{
}

/// "City not found" ends a search exactly when the look-up lists no place.
pub proof fn lemma_city_not_found_only_when_empty(found: Vec<GeoLocation>)
    ensures
        lookup_error(Reply::Body(GeoSearch { results: Some(found) })) == Some("City not found"@)
            <==> found@.len() == 0,
{
}

/// Every failed request ends the search with a message that ends with the
/// failure's own detail text.
pub proof fn lemma_lookup_failure_keeps_detail(e: String, parse: bool)
    ensures
        ({
            let reply: Reply<GeoSearch> = if parse { Reply::ParseError(e) } else { Reply::NetworkError(e) };
            lookup_error(reply) matches Some(m) && m.len() >= e@.len()
                && m.subrange(m.len() - e@.len(), m.len() as int) == e@
        }),
{
    let reply: Reply<GeoSearch> = if parse { Reply::ParseError(e) } else { Reply::NetworkError(e) };
    let m = lookup_error(reply)->Some_0;
    assert(m.subrange(m.len() - e@.len(), m.len() as int) =~= e@);
}

/// The two requests a search makes once its city is found.
pub struct ForecastRequests {
    pub weather_url: String,
    pub air_quality_url: String,
}

/// The step of a search after the look-up: the search stops with the
/// look-up's error, or goes on with the forecast and air quality requests
/// for the first place found.
pub fn forecast_requests(reply: Reply<GeoSearch>) -> (next: Result<ForecastRequests, String>)
    ensures
        match lookup_error(reply) {
            Some(m) => next matches Err(e) && e@ == m,
            None => next matches Ok(q)
                && q.weather_url@ == forecast_url(first_place(reply).latitude@, first_place(reply).longitude@)
                && q.air_quality_url@ == air_quality_url_of(first_place(reply).latitude@, first_place(reply).longitude@),
        },
        match reply {
            Reply::Body(search) => match search.results {
                Some(found) => found@.len() > 0 ==> (next matches Ok(q)
                    && q.weather_url@ == forecast_url(found@[0].latitude@, found@[0].longitude@)
                    && q.air_quality_url@ == air_quality_url_of(found@[0].latitude@, found@[0].longitude@)),
                None => true,
            },
            _ => true,
        },
{
    match locate(reply) {
        Err(e) => Err(e),
        Ok(place) => Ok(ForecastRequests {
            weather_url: weather_url(&place),
            air_quality_url: air_quality_url(&place),
        }),
    }
}

/// Reads the forecast reply: its body, or the error that the dashboard shows.
pub fn weather_outcome<W>(reply: Reply<W>) -> (outcome: Result<W, String>)
    ensures
        match reply {
            Reply::NetworkError(e) => outcome matches Err(m) && m@ == message("Weather network error: "@, e@),
            Reply::ParseError(e) => outcome matches Err(m) && m@ == message("Weather JSON parsing error: "@, e@),
            Reply::Body(w) => outcome == Ok::<W, String>(w),
        },
{
    match reply {
        Reply::NetworkError(e) => Err(join("Weather network error: ", e.as_str())),
        Reply::ParseError(e) => Err(join("Weather JSON parsing error: ", e.as_str())),
        Reply::Body(w) => Ok(w),
    }
}

/// Reads the air quality reply: its body, or the error that the dashboard shows.
pub fn air_quality_outcome<A>(reply: Reply<A>) -> (outcome: Result<A, String>)
    ensures
        match reply {
            Reply::NetworkError(e) => outcome matches Err(m) && m@ == message("AQI Network error: "@, e@),
            Reply::ParseError(e) => outcome matches Err(m) && m@ == message("AQI JSON Parsing error:  "@, e@),
            Reply::Body(a) => outcome == Ok::<A, String>(a),
        },
{
    match reply {
        Reply::NetworkError(e) => Err(join("AQI Network error: ", e.as_str())),
        Reply::ParseError(e) => Err(join("AQI JSON Parsing error:  ", e.as_str())),
        Reply::Body(a) => Ok(a),
    }
}

/// Puts the two replies, which were awaited together, into one result.
/// When both failed, the forecast's error is the one reported.
pub fn combine<W, A>(weather: Reply<W>, air: Reply<A>) -> (both: Result<(W, A), String>)
    ensures
        match (weather, air) {
            (Reply::Body(w), Reply::Body(a)) => both == Ok::<(W, A), String>((w, a)),
            (Reply::NetworkError(e), _) => both matches Err(m) && m@ == message("Weather network error: "@, e@),
            (Reply::ParseError(e), _) => both matches Err(m) && m@ == message("Weather JSON parsing error: "@, e@),
            (Reply::Body(_), Reply::NetworkError(e)) => both matches Err(m) && m@ == message("AQI Network error: "@, e@),
            (Reply::Body(_), Reply::ParseError(e)) => both matches Err(m) && m@ == message("AQI JSON Parsing error:  "@, e@),
        },
{
    let w = weather_outcome(weather);
    let a = air_quality_outcome(air);
    match w {
        Err(e) => Err(e),
        Ok(w) => match a {
            Err(e) => Err(e),
            Ok(a) => Ok((w, a)),
        },
    }
}

} // verus!
