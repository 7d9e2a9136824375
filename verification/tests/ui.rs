use weather_dashboard::ui::{clock_part, get_weather_emoji};

#[test]
fn emoji_for_clear_and_cloudy_codes() {
    assert_eq!(get_weather_emoji(0), "☀️");
    assert_eq!(get_weather_emoji(1), "🌤️");
    assert_eq!(get_weather_emoji(2), "⛅");
    assert_eq!(get_weather_emoji(3), "☁️");
}

#[test]
fn emoji_for_fog_rain_and_snow() {
    assert_eq!(get_weather_emoji(45), "🌫️");
    assert_eq!(get_weather_emoji(48), "🌫️");
    for code in [51, 53, 55, 61, 63, 65] {
        assert_eq!(get_weather_emoji(code), "🌧️");
    }
    for code in [56, 57, 66, 67, 77, 85, 86] {
        assert_eq!(get_weather_emoji(code), "🌨️");
    }
    for code in [71, 73, 75] {
        assert_eq!(get_weather_emoji(code), "❄️");
    }
}

#[test]
fn emoji_for_showers_covers_80_and_81_only() {
    assert_eq!(get_weather_emoji(80), "🌦️");
    assert_eq!(get_weather_emoji(81), "🌦️");
    assert_eq!(get_weather_emoji(82), "❓");
}

#[test]
fn emoji_for_thunderstorms() {
    assert_eq!(get_weather_emoji(95), "⛈️");
    assert_eq!(get_weather_emoji(96), "⛈️");
    assert_eq!(get_weather_emoji(99), "⛈️");
}

#[test]
fn emoji_for_unknown_codes() {
    for code in [4, 44, 46, 50, 52, 58, 60, 70, 76, 79, 84, 90, 97, 98, 100, u32::MAX] {
        assert_eq!(get_weather_emoji(code), "❓");
    }
}

#[test]
fn clock_part_of_an_iso_timestamp() {
    assert_eq!(clock_part("2024-05-01T06:00"), "06:00");
}

#[test]
fn clock_part_without_a_t_is_the_whole_text() {
    assert_eq!(clock_part("06:00"), "06:00");
    assert_eq!(clock_part(""), "");
}

#[test]
fn clock_part_takes_what_follows_the_last_t() {
    assert_eq!(clock_part("aTbTc"), "c");
    assert_eq!(clock_part("2024T"), "");
    assert_eq!(clock_part("T"), "");
}

#[test]
fn clock_part_counts_characters_not_bytes() {
    assert_eq!(clock_part("ăşțTîâ"), "îâ");
}
