use chrono::{NaiveDate, TimeZone, Utc};
use qwx::display::{
    build_default_current_weather_line, format_current_weather_line, format_hourly_forecast,
    format_weather_report, get_wind_direction_emoji, pack_entries, wrap_line,
};
use qwx::model::{
    DailyForecastEntry, HourlyForecastEntry, MetarReport, TafReport, WeatherCondition, WeatherReport,
};

/// Tenths of a degree, as the report holds temperatures.
fn tenths(x: f64) -> i64 {
    (x * 10.0).trunc() as i64
}

/// Hundredths of a km/h, as the report holds wind speeds.
fn hundredths(x: f64) -> u32 {
    (x * 100.0).round() as u32
}

fn days_since_epoch(d: NaiveDate) -> i64 {
    (d - NaiveDate::from_ymd_opt(1970, 1, 1).unwrap()).num_days()
}

fn ts(y: i32, mo: u32, d: u32, h: u32, mi: u32, s: u32) -> i64 {
    Utc.with_ymd_and_hms(y, mo, d, h, mi, s).unwrap().timestamp()
}

fn day(y: i32, mo: u32, d: u32) -> i64 {
    days_since_epoch(Utc.with_ymd_and_hms(y, mo, d, 0, 0, 0).unwrap().date_naive())
}

fn daily(date: i64, c: WeatherCondition, max: f64, min: f64, p: Option<u8>) -> DailyForecastEntry {
    DailyForecastEntry {
        date,
        weather_condition: c,
        temp_max: tenths(max),
        temp_min: tenths(min),
        precipitation_chance: p,
    }
}

fn hourly(time: i64, t: f64, c: WeatherCondition, p: Option<u8>, ws: f64, wd: Option<u16>) -> HourlyForecastEntry {
    HourlyForecastEntry {
        time,
        temperature: tenths(t),
        weather_condition: c,
        precipitation_chance: p,
        wind_speed: hundredths(ws),
        wind_deg: wd,
        dew_point: None,
        feels_like: None,
        humidity: None,
        pressure: None,
    }
}

fn empty_report() -> WeatherReport {
    WeatherReport {
        city_name: None,
        state: None,
        country: None,
        temperature: tenths(68.0),
        dew_point: None,
        feels_like: tenths(64.0),
        temp_min: None,
        temp_max: None,
        pressure: None,
        humidity: None,
        current_precipitation_chance: None,
        weather_condition: WeatherCondition::Unknown,
        wind_speed: hundredths(0.0),
        wind_deg: None,
        sunrise: None,
        sunset: None,
        datetime: Utc::now().timestamp(),
        timezone_offset: None,
        latitude: 0,
        longitude: 0,
        daily_forecast: Vec::new(),
        hourly_forecast: Vec::new(),
        metar: None,
        taf: None,
    }
}

#[test]
fn test_get_wind_direction_emoji() {
    assert_eq!(get_wind_direction_emoji(0), "⬆️");
    assert_eq!(get_wind_direction_emoji(10), "⬆️");
    assert_eq!(get_wind_direction_emoji(45), "↗️");
    assert_eq!(get_wind_direction_emoji(90), "➡️");
    assert_eq!(get_wind_direction_emoji(135), "↘️");
    assert_eq!(get_wind_direction_emoji(180), "⬇️");
    assert_eq!(get_wind_direction_emoji(225), "↙️");
    assert_eq!(get_wind_direction_emoji(270), "⬅️");
    assert_eq!(get_wind_direction_emoji(315), "↖️");
    assert_eq!(get_wind_direction_emoji(359), "⬆️");
    assert_eq!(get_wind_direction_emoji(360), "⬆️");
}

#[test]
fn test_format_weather_report() {
    let report = WeatherReport {
        city_name: Some("Testville".to_string()),
        state: Some("TS".to_string()),
        country: Some("US".to_string()),
        temperature: tenths(73.0),
        dew_point: Some(tenths(59.0)),
        feels_like: tenths(68.0),
        temp_min: Some(tenths(64.0)),
        temp_max: Some(tenths(82.0)),
        pressure: Some(1013),
        humidity: Some(85),
        current_precipitation_chance: Some(30),
        weather_condition: WeatherCondition::Clear,
        wind_speed: hundredths(18.52),
        wind_deg: Some(270),
        sunrise: Some(ts(2023, 1, 1, 6, 30, 0)),
        sunset: Some(ts(2023, 1, 1, 17, 45, 0)),
        datetime: ts(2023, 1, 1, 12, 0, 0),
        timezone_offset: Some(0),
        latitude: 0,
        longitude: 0,
        daily_forecast: vec![
            daily(day(2023, 1, 2), WeatherCondition::Clouds, 77.0, 59.0, Some(30)),
            daily(day(2023, 1, 3), WeatherCondition::Rain, 68.0, 50.0, Some(80)),
            daily(day(2023, 1, 4), WeatherCondition::Clear, 72.0, 54.0, Some(10)),
            daily(day(2023, 1, 5), WeatherCondition::Snow, 41.0, 28.0, Some(90)),
            daily(day(2023, 1, 6), WeatherCondition::Thunderstorm, 82.0, 64.0, Some(70)),
            daily(day(2023, 1, 7), WeatherCondition::Mist, 59.0, 46.0, Some(20)),
        ],
        hourly_forecast: Vec::new(),
        metar: None,
        taf: None,
    };

    let formatted = format_weather_report(&report, true, false, None);
    let lines: Vec<&str> = formatted.lines().collect();

    assert!(lines[0].contains("📍Testville, TS, US 🌡️73F 💧59F  Hi:77F Lo:59F ☀️ 85% ☔30% ⬅️10kts 29.9Hg 🌅06:30 🌇17:45"));
    assert!(lines[1].contains("Mon: Hi 77F Lo 59F ☁️ ☔30% | Tue: Hi 68F Lo 50F 🌧️ ☔80%"));
    assert!(lines[2].contains("Wed: Hi 72F Lo 54F ☀️ ☔10% | Thu: Hi 41F Lo 28F ❄️ ☔90%"));
    assert!(lines[3].contains("Fri: Hi 82F Lo 64F ⛈️ ☔70% | Sat: Hi 59F Lo 46F 🌫️ ☔20%"));
}

#[test]
fn test_format_weather_report_optional_fields() {
    let report = empty_report();
    let formatted = format_weather_report(&report, false, false, None);
    assert_eq!(formatted, "📍N/A, N/A 🌡️68F  Hi:N/A Lo:N/A ❓ N/A% ❓0kts N/AHg 🌅N/A 🌇N/A");
}

#[test]
fn test_format_weather_report_hourly_forecast() {
    let report = WeatherReport {
        city_name: Some("Hourlyville".to_string()),
        state: None,
        country: Some("US".to_string()),
        temperature: tenths(50.0),
        dew_point: Some(tenths(41.0)),
        feels_like: tenths(46.0),
        temp_min: Some(tenths(41.0)),
        temp_max: Some(tenths(59.0)),
        pressure: Some(1010),
        humidity: Some(70),
        current_precipitation_chance: Some(10),
        weather_condition: WeatherCondition::Clear,
        wind_speed: hundredths(9.26),
        wind_deg: Some(180),
        sunrise: Some(ts(2023, 1, 1, 7, 0, 0)),
        sunset: Some(ts(2023, 1, 1, 18, 0, 0)),
        datetime: ts(2023, 1, 1, 12, 0, 0),
        timezone_offset: Some(0),
        latitude: 0,
        longitude: 0,
        daily_forecast: Vec::new(),
        hourly_forecast: vec![
            hourly(1672531200, 41.0, WeatherCondition::Clear, Some(0), 5.0, Some(0)),
            hourly(1672542000, 45.0, WeatherCondition::Clouds, Some(10), 10.0, Some(90)),
            hourly(1672552800, 50.0, WeatherCondition::Rain, Some(70), 15.0, Some(270)),
        ],
        metar: None,
        taf: None,
    };

    let formatted = format_weather_report(&report, false, true, None);
    let lines: Vec<&str> = formatted.lines().collect();

    assert!(lines.len() >= 2);
    assert_eq!(lines[1], "Hourly Forecast:");
    assert!(lines[2].contains("00:00 41☀️ | 03:00 45☁️☔10% | 06:00 50🌧️☔70%"));
}

#[test]
fn wind_emoji_sectors_and_invalid_bearings() {
    assert_eq!(get_wind_direction_emoji(11), "⬆️");
    assert_eq!(get_wind_direction_emoji(12), "↗️");
    assert_eq!(get_wind_direction_emoji(326), "↖️");
    assert_eq!(get_wind_direction_emoji(327), "↖️");
    assert_eq!(get_wind_direction_emoji(330), "↖️");
    assert_eq!(get_wind_direction_emoji(336), "↖️");
    assert_eq!(get_wind_direction_emoji(337), "↖️");
    assert_eq!(get_wind_direction_emoji(348), "↖️");
    assert_eq!(get_wind_direction_emoji(349), "⬆️");
    assert_eq!(get_wind_direction_emoji(361), "❓");
    assert_eq!(get_wind_direction_emoji(65535), "❓");
}

#[test]
fn short_line_is_not_wrapped() {
    let lines = wrap_line("KSEA 241719Z 31007KT", 80);
    assert_eq!(lines, vec!["KSEA 241719Z 31007KT".to_string()]);
}

#[test]
fn long_line_wraps_at_spaces_with_indent() {
    let text = "📍KSEA (METAR) SPECI KSEA 241719Z 31007KT 1SM R16L/5500VP6000FT -RA BR BKN003 OVC011 07/06 A2977 RMK AO2 BKN003 V SCT P0005 T00670061 $";
    let lines = wrap_line(text, 80);
    assert_eq!(lines.len(), 2);
    assert_eq!(
        lines[0],
        "📍KSEA (METAR) SPECI KSEA 241719Z 31007KT 1SM R16L/5500VP6000FT -RA BR BKN003"
    );
    assert_eq!(lines[1], "    OVC011 07/06 A2977 RMK AO2 BKN003 V SCT P0005 T00670061 $");
    let joined: Vec<&str> = lines.iter().flat_map(|l| l.split_whitespace()).collect();
    let original: Vec<&str> = text.split_whitespace().collect();
    assert_eq!(joined, original);
}

#[test]
fn overlong_word_stands_alone_indented() {
    let lines = wrap_line("aaaa bbbbbbbbbbbb cc", 6);
    assert_eq!(lines, vec!["aaaa".to_string(), "    bbbbbbbbbbbb".to_string(), "    cc".to_string()]);
    let lines = wrap_line("bbbbbbbbbbbb cc", 6);
    assert_eq!(lines, vec!["bbbbbbbbbbbb".to_string(), "    cc".to_string()]);
    assert_eq!(wrap_line("a", 0), vec!["a".to_string()]);
}

#[test]
fn pack_entries_keeps_all_entries() {
    let entries: Vec<String> = vec!["aaaa".into(), "bbbb".into(), "cccc".into()];
    let lines = pack_entries(&entries, 11);
    assert_eq!(lines, vec!["aaaa | bbbb".to_string(), "cccc".to_string()]);
    assert_eq!(lines.join(" | "), entries.join(" | "));
    assert!(pack_entries(&Vec::new(), 80).is_empty());
}

#[test]
fn temperatures_round_half_away_from_zero() {
    let mut r = empty_report();
    r.temperature = 725;
    assert!(build_default_current_weather_line(&r).contains("🌡️73F"));
    r.temperature = -3;
    assert!(build_default_current_weather_line(&r).contains("🌡️-0F"));
    r.temperature = -15;
    assert!(build_default_current_weather_line(&r).contains("🌡️-2F"));
}

#[test]
fn daily_temperatures_round_half_to_even() {
    let mut r = empty_report();
    r.daily_forecast = vec![DailyForecastEntry {
        date: 0,
        weather_condition: WeatherCondition::Clear,
        temp_max: 725,
        temp_min: 735,
        precipitation_chance: None,
    }];
    let out = format_weather_report(&r, true, false, None);
    let lines: Vec<&str> = out.lines().collect();
    assert_eq!(lines[1], "Thu: Hi 72F Lo 74F ☀️ N/A");
    // The current line takes today's high and low, rounded half away from zero.
    assert!(lines[0].contains("Hi:73F Lo:74F"));
}

#[test]
fn local_times_use_the_offset() {
    let mut r = empty_report();
    r.sunrise = Some(ts(2023, 1, 1, 6, 30, 0));
    r.sunset = Some(ts(2023, 1, 1, 23, 45, 0));
    r.timezone_offset = Some(-8 * 3600);
    let line = build_default_current_weather_line(&r);
    assert!(line.ends_with("🌅22:30 🌇15:45"));
    r.timezone_offset = Some(86400);
    let line = build_default_current_weather_line(&r);
    assert!(line.ends_with("🌅06:30 🌇23:45"));
}

#[test]
fn pressure_and_wind_are_converted() {
    let mut r = empty_report();
    r.pressure = Some(1000);
    r.wind_speed = 556;
    r.wind_deg = Some(90);
    let line = build_default_current_weather_line(&r);
    assert!(line.contains("➡️3kts 29.5Hg"));
}

#[test]
fn conversions_follow_binary64_arithmetic() {
    for (hpa, shown) in [(5000u16, "147.7"), (15000, "442.9"), (25000, "738.2"), (1013, "29.9"), (0, "0.0")] {
        let mut r = empty_report();
        r.pressure = Some(hpa);
        let line = build_default_current_weather_line(&r);
        assert!(line.contains(&format!(" {}Hg ", shown)), "{} hPa: {}", hpa, line);
        assert_eq!(format!("{:.1}", hpa as f64 * 0.02953), shown);
    }
    for (speed, shown) in [(3241u32, "17"), (1389, "8"), (1852, "10"), (0, "0"), (4_000_000_000, "21598272")] {
        let mut r = empty_report();
        r.wind_speed = speed;
        let line = build_default_current_weather_line(&r);
        assert!(line.contains(&format!("❓{}kts ", shown)), "{}: {}", speed, line);
        assert_eq!(format!("{:.0}", (speed as f64 / 100.0) / 1.852), shown);
    }
}

#[test]
fn custom_format_is_filled_in() {
    let mut r = empty_report();
    r.city_name = Some("Seattle".to_string());
    r.country = Some("US".to_string());
    r.temperature = 455;
    r.wind_deg = Some(180);
    r.humidity = Some(40);
    let default = build_default_current_weather_line(&r);
    let fmt = "{location} {temp}F {wind_emoji}{wind_dir} {humidity}% {unknown} {temp}".to_string();
    let line = format_current_weather_line(&r, Some(&fmt), default.as_str());
    assert_eq!(line, "Seattle, US 46F ⬇️180 40% {unknown} 46");
    let empty = String::new();
    assert_eq!(format_current_weather_line(&r, Some(&empty), default.as_str()), default);
    assert_eq!(format_current_weather_line(&r, None, default.as_str()), default);
}

#[test]
fn hourly_forecast_hides_zero_chance() {
    let mut r = empty_report();
    r.hourly_forecast = vec![hourly(0, -1.5, WeatherCondition::Snow, Some(0), 0.0, None)];
    r.timezone_offset = Some(3600);
    assert_eq!(format_hourly_forecast(&r), vec!["01:00 -2❄️".to_string()]);
}

fn aviation_report(taf: Option<Vec<&str>>) -> WeatherReport {
    let mut r = empty_report();
    r.metar = Some(MetarReport {
        raw: "KSEA 241719Z 31007KT 1SM -RA BR".to_string(),
        station_id: "KSEA".to_string(),
        observation_time: 0,
    });
    r.taf = taf.map(|lines| TafReport {
        raw: lines.join("  "),
        station_id: "KSEA".to_string(),
        lines: lines.iter().map(|s| s.to_string()).collect(),
    });
    r
}

#[test]
fn aviation_report_shows_metar_taf_and_disclaimer() {
    let r = aviation_report(Some(vec!["TAF KSEA 241458Z 2415/2518 00000KT", "FM241600 15008KT 4SM"]));
    let fmt = "{temp}".to_string();
    let out = format_weather_report(&r, true, false, Some(&fmt));
    let lines: Vec<&str> = out.lines().collect();
    assert_eq!(lines[0], "📍KSEA (METAR) KSEA 241719Z 31007KT 1SM -RA BR");
    assert_eq!(lines[1], "Forecast (TAF):");
    assert_eq!(lines[2], "TAF KSEA 241458Z 2415/2518 00000KT");
    assert_eq!(lines[3], "FM241600 15008KT 4SM");
    assert!(lines[4].contains("NOT FOR FLIGHT PLANNING"));
    let out = format_weather_report(&aviation_report(None), true, false, None);
    assert!(out.contains("No TAF available for this station."));
    let out = format_weather_report(&aviation_report(None), false, false, None);
    assert_eq!(out.lines().count(), 2);
}
