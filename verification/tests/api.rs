use weather_dashboard::api::{
    air_quality_outcome, air_quality_url, combine, forecast_requests, geo_url, locate, weather_outcome, weather_url,
    GeoLocation, GeoSearch, Reply,
};

fn place(lat: &str, lon: &str) -> GeoLocation {
    GeoLocation { latitude: lat.to_string(), longitude: lon.to_string() }
}

#[test]
fn geo_url_puts_the_city_in_the_query() {
    assert_eq!(
        geo_url("Iasi"),
        "https://geocoding-api.open-meteo.com/v1/search?name=Iasi&count=1&language=ro&format=json"
    );
}

#[test]
fn geo_url_keeps_the_name_as_typed() {
    assert_eq!(
        geo_url("New York"),
        "https://geocoding-api.open-meteo.com/v1/search?name=New York&count=1&language=ro&format=json"
    );
}

#[test]
fn weather_url_for_a_place() {
    assert_eq!(
        weather_url(&place("47.16667", "27.6")),
        "https://api.open-meteo.com/v1/forecast?latitude=47.16667&longitude=27.6&current=temperature_2m,weather_code,surface_pressure,wind_speed_10m,precipitation&daily=temperature_2m_max,temperature_2m_min,uv_index_max,sunrise&timezone=auto&forecast_days=7&hourly=temperature_2m"
    );
}

#[test]
fn air_quality_url_for_a_place() {
    assert_eq!(
        air_quality_url(&place("-33.86785", "151.20732")),
        "https://air-quality-api.open-meteo.com/v1/air-quality?latitude=-33.86785&longitude=151.20732&current=european_aqi,pm2_5,carbon_monoxide,nitrogen_dioxide,sulphur_dioxide,ozone"
    );
}

#[test]
fn locate_picks_the_first_place() {
    let search = GeoSearch { results: Some(vec![place("1.5", "2.5"), place("3", "4")]) };
    match locate(Reply::Body(search)) {
        Ok(p) => {
            assert_eq!(p.latitude, "1.5");
            assert_eq!(p.longitude, "2.5");
        }
        Err(e) => panic!("unexpected error {}", e),
    }
}

#[test]
fn locate_without_results_list() {
    match locate(Reply::Body(GeoSearch { results: None })) {
        Err(e) => assert_eq!(e, "No results received"),
        Ok(_) => panic!("expected an error"),
    }
}

#[test]
fn locate_with_empty_results_list() {
    match locate(Reply::Body(GeoSearch { results: Some(vec![]) })) {
        Err(e) => assert_eq!(e, "City not found"),
        Ok(_) => panic!("expected an error"),
    }
}

#[test]
fn locate_reports_network_and_parse_errors() {
    match locate(Reply::NetworkError("timed out".to_string())) {
        Err(e) => assert_eq!(e, "GEO network error: timed out"),
        Ok(_) => panic!("expected an error"),
    }
    match locate(Reply::ParseError("missing field".to_string())) {
        Err(e) => assert_eq!(e, "JSON parsing error: missing field"),
        Ok(_) => panic!("expected an error"),
    }
}

#[test]
fn weather_outcome_messages() {
    assert_eq!(weather_outcome(Reply::Body(7)), Ok(7));
    assert_eq!(
        weather_outcome::<u8>(Reply::NetworkError("x".to_string())),
        Err("Weather network error: x".to_string())
    );
    assert_eq!(
        weather_outcome::<u8>(Reply::ParseError("y".to_string())),
        Err("Weather JSON parsing error: y".to_string())
    );
}

#[test]
fn air_quality_outcome_messages() {
    assert_eq!(air_quality_outcome(Reply::Body("a")), Ok("a"));
    assert_eq!(
        air_quality_outcome::<u8>(Reply::NetworkError("x".to_string())),
        Err("AQI Network error: x".to_string())
    );
    assert_eq!(
        air_quality_outcome::<u8>(Reply::ParseError("y".to_string())),
        Err("AQI JSON Parsing error:  y".to_string())
    );
}

#[test]
fn combine_both_bodies() {
    assert_eq!(combine(Reply::Body(1), Reply::Body("aqi")), Ok((1, "aqi")));
}

#[test]
fn combine_reports_the_forecast_error_first() {
    let r: Result<(u8, u8), String> =
        combine(Reply::ParseError("w".to_string()), Reply::NetworkError("a".to_string()));
    assert_eq!(r, Err("Weather JSON parsing error: w".to_string()));
}

#[test]
fn combine_reports_the_air_quality_error_when_the_forecast_arrived() {
    let r: Result<(u8, u8), String> = combine(Reply::Body(1), Reply::ParseError("a".to_string()));
    assert_eq!(r, Err("AQI JSON Parsing error:  a".to_string()));
    let r: Result<(u8, u8), String> = combine(Reply::Body(1), Reply::NetworkError("b".to_string()));
    assert_eq!(r, Err("AQI Network error: b".to_string()));
}

#[test]
fn forecast_requests_go_to_the_first_place_found() {
    let search = GeoSearch { results: Some(vec![place("47.16667", "27.6"), place("0", "0")]) };
    match forecast_requests(Reply::Body(search)) {
        Ok(q) => {
            assert_eq!(q.weather_url, weather_url(&place("47.16667", "27.6")));
            assert_eq!(q.air_quality_url, air_quality_url(&place("47.16667", "27.6")));
        }
        Err(e) => panic!("unexpected error {}", e),
    }
}

#[test]
fn forecast_requests_stop_at_a_failed_look_up() {
    for (reply, msg) in [
        (Reply::NetworkError("down".to_string()), "GEO network error: down"),
        (Reply::ParseError("bad".to_string()), "JSON parsing error: bad"),
        (Reply::Body(GeoSearch { results: None }), "No results received"),
        (Reply::Body(GeoSearch { results: Some(vec![]) }), "City not found"),
    ] {
        match forecast_requests(reply) {
            Err(e) => assert_eq!(e, msg),
            Ok(_) => panic!("expected an error"),
        }
    }
}
