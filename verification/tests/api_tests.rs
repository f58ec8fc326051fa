use chrono::TimeZone;
use qwx::cli::{forecast_choice, forecast_choice_for, parse_u8, render_cli_report, DisplayChoice};
use qwx::config::Config;
use qwx::model::{DailyForecastEntry, HourlyForecastEntry, WeatherCondition, WeatherReport};
use qwx::weather_api::noaa_awc::{aviation_weather_report, build_aviation_report, taf_is_needed, taf_lines};
use qwx::weather_api::open_meteo::{
    assemble_open_meteo_report, build_open_meteo_report, locate, resolve_location,
    CurrentReadings, DailyReadings, ForecastReadings, GeoCandidate, HourlyReadings, Reading,
    ResolvedLocation,
};
use qwx::weather_api::owm_models::OwmWeather;
use qwx::weather_api::{
    is_aviation_location, location_from_ip_answer, next_fetch_step, route_provider,
    select_provider, FetchStep, WeatherApiError, WeatherApiProvider,
};

#[test]
fn wmo_codes_map_to_conditions() {
    assert_eq!(WeatherCondition::from_wmo_code(0), WeatherCondition::Clear);
    assert_eq!(WeatherCondition::from_wmo_code(2), WeatherCondition::Clouds);
    assert_eq!(WeatherCondition::from_wmo_code(48), WeatherCondition::Fog);
    assert_eq!(WeatherCondition::from_wmo_code(55), WeatherCondition::Drizzle);
    assert_eq!(WeatherCondition::from_wmo_code(57), WeatherCondition::FreezingDrizzle);
    assert_eq!(WeatherCondition::from_wmo_code(82), WeatherCondition::Rain);
    assert_eq!(WeatherCondition::from_wmo_code(66), WeatherCondition::FreezingRain);
    assert_eq!(WeatherCondition::from_wmo_code(77), WeatherCondition::Snow);
    assert_eq!(WeatherCondition::from_wmo_code(86), WeatherCondition::Snow);
    assert_eq!(WeatherCondition::from_wmo_code(99), WeatherCondition::Thunderstorm);
    assert_eq!(WeatherCondition::from_wmo_code(4), WeatherCondition::Unknown);
    assert_eq!(WeatherCondition::from_wmo_code(255), WeatherCondition::Unknown);
}

#[test]
fn conditions_have_their_emoji() {
    assert_eq!(WeatherCondition::Clear.emoji(), "☀️");
    assert_eq!(WeatherCondition::Clouds.emoji(), "☁️");
    assert_eq!(WeatherCondition::FreezingRain.emoji(), "🌧️");
    assert_eq!(WeatherCondition::Thunderstorm.emoji(), "⛈️");
    assert_eq!(WeatherCondition::Snow.emoji(), "❄️");
    assert_eq!(WeatherCondition::Ash.emoji(), "🌫️");
    assert_eq!(WeatherCondition::Tornado.emoji(), "🌪️");
    assert_eq!(WeatherCondition::Unknown.emoji(), "❓");
}

#[test]
fn owm_groups_name_conditions() {
    let w = OwmWeather {
        id: 500,
        main: "Rain".to_string(),
        description: "light rain".to_string(),
        icon: "10d".to_string(),
    };
    assert_eq!(WeatherCondition::from(&w), WeatherCondition::Rain);
    assert_eq!(WeatherCondition::from_main("Squall"), WeatherCondition::Squall);
    assert_eq!(WeatherCondition::from_main("rain"), WeatherCondition::Unknown);
}

#[test]
fn aviation_identifiers_are_recognised() {
    assert!(is_aviation_location("KSEA"));
    assert!(is_aviation_location("S60"));
    assert!(!is_aviation_location("90210"));
    assert!(!is_aviation_location("Seattle, WA"));
    assert!(!is_aviation_location("KS"));
    assert!(is_aviation_location("123"));
    assert!(!is_aviation_location("12345"));
    assert!(is_aviation_location("1234"));
}

#[test]
fn providers_are_routed() {
    assert_eq!(select_provider("KSEA", WeatherApiProvider::OpenMeteo), WeatherApiProvider::NoaaAwc);
    assert_eq!(select_provider("90210", WeatherApiProvider::OpenMeteo), WeatherApiProvider::OpenMeteo);
    assert_eq!(select_provider("90210", WeatherApiProvider::NoaaAwc), WeatherApiProvider::NoaaAwc);
    assert_eq!(route_provider(WeatherApiProvider::NoaaAwc, true), WeatherApiProvider::NoaaAwc);
}

#[test]
fn fetches_are_retried_at_most_three_times() {
    let transient: Result<WeatherReport, WeatherApiError> =
        Err(WeatherApiError::Other("connection reset".to_string()));
    assert_eq!(next_fetch_step(1, &transient), FetchStep::RetryAfterPause);
    assert_eq!(next_fetch_step(2, &transient), FetchStep::RetryAfterPause);
    assert_eq!(next_fetch_step(3, &transient), FetchStep::Finish);
    let unknown: Result<WeatherReport, WeatherApiError> =
        Err(WeatherApiError::Other("No location found for search term: 00000".to_string()));
    assert_eq!(next_fetch_step(1, &unknown), FetchStep::Finish);
    let missing: Result<WeatherReport, WeatherApiError> =
        Err(WeatherApiError::ApiError("feature not implemented".to_string()));
    assert_eq!(next_fetch_step(1, &missing), FetchStep::Finish);
}

#[test]
fn error_messages_name_their_kind() {
    assert_eq!(WeatherApiError::ApiError("bad key".to_string()).message(), "API Error: bad key");
    assert_eq!(WeatherApiError::Other("timeout".to_string()).message(), "Other Error: timeout");
}

#[test]
fn ip_answers_are_read() {
    assert_eq!(location_from_ip_answer(None, None, Some("98101")), Ok("98101".to_string()));
    assert_eq!(
        location_from_ip_answer(Some("fail"), Some("private range"), None),
        Err("Failed to get location from IP: private range".to_string())
    );
    assert_eq!(
        location_from_ip_answer(Some("fail"), None, Some("1")),
        Err("Failed to get location from IP: Unknown error".to_string())
    );
    assert_eq!(
        location_from_ip_answer(Some("success"), None, None),
        Err("Could not find zip code in IP-API response.".to_string())
    );
}

#[test]
fn taf_is_split_into_blocks() {
    assert_eq!(
        taf_lines("TAF KSEA 241458Z  FM241600 15008KT   FM241800 17010KT"),
        vec!["TAF KSEA 241458Z".to_string(), "FM241600 15008KT".to_string(), "FM241800 17010KT".to_string()]
    );
}

#[test]
fn aviation_reports_are_built() {
    let r = build_aviation_report("ksea", "  KSEA 241719Z 31007KT\n", " TAF KSEA  FM1 X \n", 1000).unwrap();
    assert_eq!(r.city_name.as_deref(), Some("KSEA"));
    assert_eq!(r.country.as_deref(), Some(""));
    assert_eq!(r.datetime, 1000);
    let m = r.metar.unwrap();
    assert_eq!(m.raw, "KSEA 241719Z 31007KT");
    assert_eq!(m.station_id, "KSEA");
    let t = r.taf.unwrap();
    assert_eq!(t.raw, "TAF KSEA  FM1 X");
    assert_eq!(t.lines, vec!["TAF KSEA".to_string(), "FM1 X".to_string()]);
    let r = build_aviation_report("KSEA", "KSEA 1", "   ", 0).unwrap();
    assert!(r.taf.is_none());
    match build_aviation_report("KXXX", " \n ", "", 0) {
        Err(WeatherApiError::Other(m)) => assert_eq!(m, "No METAR found for station: KXXX"),
        _ => panic!("a blank METAR is an error"),
    }
    let r = aviation_weather_report("ksea", "KSEA 1", "").unwrap();
    assert!(r.datetime > 1_600_000_000);
}

fn candidate(name: Option<&str>, admin1: Option<&str>, tz: Option<&str>) -> GeoCandidate {
    GeoCandidate {
        name: name.map(|s| s.to_string()),
        admin1: admin1.map(|s| s.to_string()),
        admin2: Some("King".to_string()),
        admin3: None,
        admin4: None,
        latitude: Some(47_606_209),
        longitude: Some(-122_332_071),
        country_code: Some("US".to_string()),
        timezone: tz.map(|s| s.to_string()),
    }
}

#[test]
fn locations_are_resolved() {
    match locate("00000", &None, None) {
        Err(WeatherApiError::Other(m)) => assert_eq!(m, "No location found for search term: 00000"),
        _ => panic!("no result is an error"),
    }
    match locate("00000", &Some(Vec::new()), None) {
        Err(WeatherApiError::Other(m)) => assert_eq!(m, "No location found for search term: 00000"),
        _ => panic!("no result is an error"),
    }
    let found = Some(vec![candidate(None, Some("Washington"), Some("America/Los_Angeles"))]);
    let l = locate("Seattle", &found, Some(-25200)).unwrap();
    assert_eq!(l.name, "Washington");
    assert_eq!(l.state.as_deref(), Some("Washington"));
    assert_eq!(l.country_code, "US");
    assert_eq!(l.timezone_offset, Some(-25200));
    let found = Some(vec![candidate(None, None, None)]);
    let l = locate("Seattle", &found, Some(3600)).unwrap();
    assert_eq!(l.name, "King");
    assert_eq!(l.timezone_offset, None);
    let found = Some(vec![candidate(Some("Seattle"), None, Some("UTC"))]);
    let l = resolve_location("Seattle", &found).unwrap();
    assert_eq!(l.timezone_offset, Some(0));
    let found = Some(vec![candidate(Some("Seattle"), None, Some("Not/A_Zone"))]);
    assert_eq!(resolve_location("Seattle", &found).unwrap().timezone_offset, None);
}

#[test]
fn incomplete_place_is_an_error() {
    let mut c = candidate(Some("Seattle"), None, None);
    c.latitude = None;
    match locate("Seattle", &Some(vec![c]), None) {
        Err(WeatherApiError::Other(m)) => {
            assert_eq!(m, "Location latitude is missing for search term: Seattle")
        }
        _ => panic!("a place without latitude is an error"),
    }
    let mut c = candidate(Some("Seattle"), None, None);
    c.longitude = None;
    match resolve_location("Seattle", &Some(vec![c])) {
        Err(WeatherApiError::Other(m)) => {
            assert_eq!(m, "Location longitude is missing for search term: Seattle")
        }
        _ => panic!("a place without longitude is an error"),
    }
    let mut c = candidate(Some("Seattle"), None, None);
    c.country_code = None;
    match locate("Seattle", &Some(vec![c]), None) {
        Err(WeatherApiError::Other(m)) => {
            assert_eq!(m, "Location country code is missing for search term: Seattle")
        }
        _ => panic!("a place without country is an error"),
    }
}

#[test]
fn taf_is_fetched_only_after_a_metar() {
    assert!(taf_is_needed("KSEA 241719Z 31007KT"));
    assert!(!taf_is_needed("  \n "));
    assert!(!taf_is_needed(""));
}

fn place() -> ResolvedLocation {
    ResolvedLocation {
        name: "Seattle".to_string(),
        state: Some("Washington".to_string()),
        country_code: "US".to_string(),
        latitude: 47_606_209,
        longitude: -122_332_071,
        timezone_offset: Some(-28800),
    }
}

fn current() -> CurrentReadings {
    CurrentReadings {
        datetime: 1_700_000_000,
        weather_code: Reading::Value(3),
        temperature: Reading::Value(452),
        dew_point: Reading::Value(330),
        wind_speed: Reading::Value(1852),
        wind_direction: Reading::Value(200),
        humidity: Reading::Value(70),
        pressure: Reading::Value(1012),
        precipitation_probability: Some(5),
    }
}

fn hour(time: i64, t: Option<i64>) -> HourlyReadings {
    HourlyReadings {
        time,
        temperature: t,
        weather_code: Some(61),
        precipitation_probability: Some(40),
        wind_speed: Some(900),
        wind_direction: None,
        dew_point: None,
        apparent_temperature: Some(400),
        humidity: None,
        pressure: Some(1010),
    }
}

fn day_reading(date: i64, max: Option<i64>, sunrise: Option<i64>) -> DailyReadings {
    DailyReadings {
        date,
        weather_code: None,
        temp_max: max,
        temp_min: Some(300),
        precipitation_probability: None,
        sunrise,
        sunset: Some(1_700_040_000),
    }
}

#[test]
fn open_meteo_readings_become_a_report() {
    let f = ForecastReadings {
        current: Some(current()),
        hourly: Some(vec![hour(1, Some(410)), hour(2, None), hour(3, Some(-20)), hour(4, Some(500))]),
        daily: None,
    };
    match build_open_meteo_report(place(), &f) {
        Err(WeatherApiError::Other(m)) => assert_eq!(m, "Failed to get hourly temperature"),
        _ => panic!("an hour without temperature is an error"),
    }
    let f = ForecastReadings {
        current: Some(current()),
        hourly: Some(vec![hour(1, Some(410)), hour(3, Some(-20)), hour(4, Some(500))]),
        daily: Some(vec![
            day_reading(19000, None, Some(1_700_030_000)),
            day_reading(19001, Some(500), None),
            day_reading(19002, Some(520), Some(i64::MAX)),
            day_reading(19003, Some(510), Some(1_700_031_000)),
        ]),
    };
    let r = build_open_meteo_report(place(), &f).unwrap();
    assert_eq!(r.city_name.as_deref(), Some("Seattle"));
    assert_eq!(r.state.as_deref(), Some("Washington"));
    assert_eq!(r.temperature, 452);
    assert_eq!(r.feels_like, 452);
    assert_eq!(r.dew_point, Some(330));
    assert_eq!(r.temp_min, Some(-20));
    assert_eq!(r.temp_max, Some(500));
    assert_eq!(r.weather_condition, WeatherCondition::Clouds);
    assert_eq!(r.wind_deg, Some(200));
    assert_eq!(r.sunrise, Some(1_700_030_000));
    assert_eq!(r.sunset, Some(1_700_040_000));
    assert_eq!(r.hourly_forecast.len(), 3);
    assert_eq!(r.hourly_forecast[0].weather_condition, WeatherCondition::Rain);
    assert_eq!(r.hourly_forecast[0].feels_like, Some(400));
    assert_eq!(r.daily_forecast.len(), 3);
    assert_eq!(r.daily_forecast[0].date, 19001);
    assert_eq!(r.daily_forecast[0].weather_condition, WeatherCondition::Unknown);
    assert_eq!(r.timezone_offset, Some(-28800));
}

#[test]
fn unrepresentable_sunrise_is_skipped() {
    let f = ForecastReadings {
        current: Some(current()),
        hourly: None,
        daily: Some(vec![day_reading(1, Some(1), Some(i64::MAX)), day_reading(2, Some(1), Some(7))]),
    };
    let r = build_open_meteo_report(place(), &f).unwrap();
    assert_eq!(r.sunrise, Some(7));
    assert_eq!(r.temp_min, None);
    let r = assemble_open_meteo_report(place(), &f, &vec![true, true], &vec![false, false]).unwrap();
    assert_eq!(r.sunrise, Some(i64::MAX));
    assert_eq!(r.sunset, None);
}

#[test]
fn sun_times_follow_chrono_range() {
    let first: i64 = -8_334_601_228_800;
    let last: i64 = 8_210_266_876_799;
    assert!(chrono::Utc.timestamp_opt(first, 0).single().is_some());
    assert!(chrono::Utc.timestamp_opt(first - 1, 0).single().is_none());
    assert!(chrono::Utc.timestamp_opt(last, 0).single().is_some());
    assert!(chrono::Utc.timestamp_opt(last + 1, 0).single().is_none());
    let f = ForecastReadings {
        current: Some(current()),
        hourly: None,
        daily: Some(vec![
            day_reading(1, Some(1), Some(last + 1)),
            day_reading(2, Some(1), Some(last)),
        ]),
    };
    assert_eq!(build_open_meteo_report(place(), &f).unwrap().sunrise, Some(last));
    let f = ForecastReadings {
        current: Some(current()),
        hourly: None,
        daily: Some(vec![
            day_reading(1, Some(1), Some(first - 1)),
            day_reading(2, Some(1), Some(first)),
        ]),
    };
    assert_eq!(build_open_meteo_report(place(), &f).unwrap().sunrise, Some(first));
}

#[test]
fn unusable_current_readings_are_errors() {
    let cases: Vec<(CurrentReadings, &str)> = vec![
        (CurrentReadings { weather_code: Reading::Absent, ..current() }, "Failed to get weather_code from values"),
        (CurrentReadings { weather_code: Reading::NotNumber, ..current() }, "Failed to convert weather_code to f64"),
        (CurrentReadings { temperature: Reading::Absent, ..current() }, "Failed to get temperature_2m from values"),
        (CurrentReadings { dew_point: Reading::NotNumber, ..current() }, "Failed to convert dew_point to f64"),
        (CurrentReadings { wind_speed: Reading::Absent, ..current() }, "Failed to convert wind_speed to f64"),
        (CurrentReadings { wind_direction: Reading::NotNumber, ..current() }, "Failed to convert wind_direction_10m to f64"),
        (CurrentReadings { humidity: Reading::Absent, ..current() }, "Failed to get relative_humidity_2m from values"),
        (CurrentReadings { pressure: Reading::NotNumber, ..current() }, "Failed to convert surface_pressure to f64"),
    ];
    for (c, expected) in cases {
        let f = ForecastReadings { current: Some(c), hourly: None, daily: None };
        match build_open_meteo_report(place(), &f) {
            Err(WeatherApiError::Other(m)) => assert_eq!(m, expected),
            _ => panic!("expected an error"),
        }
    }
    let f = ForecastReadings { current: None, hourly: None, daily: None };
    match build_open_meteo_report(place(), &f) {
        Err(WeatherApiError::Other(m)) => assert_eq!(m, "No current weather data found in Open-Meteo response"),
        _ => panic!("expected an error"),
    }
}

#[test]
fn counts_are_parsed_like_u8() {
    assert_eq!(parse_u8("12"), Some(12));
    assert_eq!(parse_u8("+7"), Some(7));
    assert_eq!(parse_u8("007"), Some(7));
    assert_eq!(parse_u8("255"), Some(255));
    assert_eq!(parse_u8("256"), None);
    assert_eq!(parse_u8("99999999999"), None);
    assert_eq!(parse_u8(""), None);
    assert_eq!(parse_u8("+"), None);
    assert_eq!(parse_u8("-1"), None);
    assert_eq!(parse_u8("1a"), None);
    for s in ["0", "42", "+3", "300", "x", " 1"] {
        assert_eq!(parse_u8(s), s.parse::<u8>().ok());
    }
}

#[test]
fn forecast_arguments_are_interpreted() {
    let args = |v: &[&str]| v.iter().map(|s| s.to_string()).collect::<Vec<String>>();
    let h = args(&["h", "3"]);
    assert_eq!(
        forecast_choice(Some(&h), false, false),
        Ok(DisplayChoice { show_taf: false, hourly_count: Some(3), daily_count: None })
    );
    let d = args(&["d"]);
    assert_eq!(
        forecast_choice(Some(&d), false, false),
        Ok(DisplayChoice { show_taf: false, hourly_count: None, daily_count: Some(7) })
    );
    let h_bad = args(&["h", "many"]);
    assert_eq!(forecast_choice(Some(&h_bad), false, false).unwrap().hourly_count, Some(12));
    let none = args(&[]);
    assert_eq!(
        forecast_choice(Some(&none), false, false),
        Err("Please specify 'h' (hourly) or 'd' (daily) for the forecast, e.g., -f h 12".to_string())
    );
    assert_eq!(forecast_choice_for("KSEA", Some(&none), false).unwrap().show_taf, true);
    let x = args(&["x"]);
    assert_eq!(
        forecast_choice_for("90210", Some(&x), false),
        Err("Invalid forecast option: 'x'. Use 'h' or 'd'.".to_string())
    );
    assert_eq!(forecast_choice_for("KSEA", Some(&x), false).unwrap().show_taf, true);
    assert_eq!(forecast_choice(None, true, false).unwrap().show_taf, true);
}

fn standard_report() -> WeatherReport {
    WeatherReport {
        city_name: Some("Beverly Hills".to_string()),
        state: Some("California".to_string()),
        country: Some("US".to_string()),
        temperature: 700,
        dew_point: None,
        feels_like: 700,
        temp_min: None,
        temp_max: None,
        pressure: None,
        humidity: None,
        current_precipitation_chance: None,
        wind_speed: 0,
        wind_deg: None,
        sunrise: None,
        sunset: None,
        weather_condition: WeatherCondition::Clear,
        datetime: 7200,
        timezone_offset: Some(0),
        latitude: 0,
        longitude: 0,
        daily_forecast: (0..7)
            .map(|i| DailyForecastEntry {
                date: i,
                weather_condition: WeatherCondition::Clear,
                temp_max: 800,
                temp_min: 600,
                precipitation_chance: Some(0),
            })
            .collect(),
        hourly_forecast: (0..6)
            .map(|i| HourlyForecastEntry {
                time: i * 3600,
                temperature: 650,
                weather_condition: WeatherCondition::Clouds,
                precipitation_chance: None,
                wind_speed: 0,
                wind_deg: None,
                dew_point: None,
                feels_like: None,
                humidity: None,
                pressure: None,
            })
            .collect(),
        metar: None,
        taf: None,
    }
}

#[test]
fn command_line_output_follows_the_choice() {
    let out = render_cli_report(
        standard_report(),
        DisplayChoice { show_taf: false, hourly_count: None, daily_count: None },
        None,
    );
    assert_eq!(out.lines().count(), 1);
    let out = render_cli_report(
        standard_report(),
        DisplayChoice { show_taf: false, hourly_count: None, daily_count: Some(3) },
        None,
    );
    let lines: Vec<&str> = out.lines().collect();
    assert_eq!(lines[1], "Daily Forecast:");
    assert_eq!(lines[2], "Thu: Hi 80F Lo 60F ☀️ ☔0% | Fri: Hi 80F Lo 60F ☀️ ☔0%");
    assert_eq!(lines[3], "Sat: Hi 80F Lo 60F ☀️ ☔0%");
    assert_eq!(lines.len(), 4);
    let out = render_cli_report(
        standard_report(),
        DisplayChoice { show_taf: false, hourly_count: Some(2), daily_count: None },
        None,
    );
    let lines: Vec<&str> = out.lines().collect();
    assert_eq!(lines[1], "Hourly Forecast:");
    assert_eq!(lines[2], "03:00 65☁️ | 04:00 65☁️");
}

#[test]
fn configured_locations_are_chosen_in_order() {
    let mut c = Config::default();
    assert_eq!(c.location_to_use(None), None);
    c.remember_location("KSEA".to_string());
    assert_eq!(c.location_to_use(None), Some("KSEA".to_string()));
    c.default_location = Some("90210".to_string());
    assert_eq!(c.location_to_use(None), Some("90210".to_string()));
    assert_eq!(c.location_to_use(Some("S60".to_string())), Some("S60".to_string()));
    assert_eq!(c.last_location, Some("KSEA".to_string()));
}
