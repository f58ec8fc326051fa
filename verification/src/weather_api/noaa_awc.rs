//! Aviation weather from NOAA's Aviation Weather Center: turning a raw METAR
//! and TAF into a report.
use vstd::prelude::*;
use vstd::string::StringExecFns;
use crate::text::{
    chars_of, owned, split_chars, split_on, string_of, string_views, to_uppercase, trim,
    trim_chars, trim_str, unicode_uppercase,
};
use crate::model::{
    MetarReport, MetarView, ReportView, TafReport, TafView, WeatherCondition, WeatherReport,
};
use crate::clock::unix_time_now;
use super::{ErrorView, WeatherApiError};

verus! {

/// The trimmed, non-empty pieces among `ps`, in order.
pub open spec fn trimmed_nonempty(ps: Seq<Seq<char>>) -> Seq<Seq<char>>
    decreases ps.len(),
{
    if ps.len() == 0 {
        seq![]
    } else {
        let prev = trimmed_nonempty(ps.drop_last());
        let t = trim(ps.last());
        if t.len() > 0 {
            prev.push(t)
        } else {
            prev
        }
    }
}

/// The time blocks of a TAF: the pieces between double spaces, trimmed,
/// empty ones left out.
pub open spec fn taf_blocks(taf: Seq<char>) -> Seq<Seq<char>> {
    trimmed_nonempty(split_on(taf, "  "@))
}

/// The report made of a station's raw METAR and TAF, observed at `now`.
pub open spec fn aviation_report_view(icao: Seq<char>, metar: Seq<char>, taf: Seq<char>, now: i64) -> ReportView {
    let station = unicode_uppercase(icao);
    let taf_t = trim(taf);
    ReportView {
        city_name: Some(station),
        state: None,
        country: Some(""@),
        temperature: 0,
        dew_point: None,
        feels_like: 0,
        temp_min: None,
        temp_max: None,
        pressure: None,
        humidity: None,
        current_precipitation_chance: None,
        wind_speed: 0,
        wind_deg: None,
        sunrise: None,
        sunset: None,
        weather_condition: WeatherCondition::Unknown,
        datetime: now,
        timezone_offset: None,
        latitude: 0,
        longitude: 0,
        daily_forecast: seq![],
        hourly_forecast: seq![],
        metar: Some(MetarView { raw: trim(metar), station_id: station, observation_time: now }),
        taf: if taf_t.len() == 0 {
            None
        } else {
            Some(TafView { raw: taf_t, station_id: station, lines: taf_blocks(taf_t) })
        },
    }
}

/// The error for a station that has no METAR.
pub open spec fn no_metar_error(icao: Seq<char>) -> ErrorView {
    ErrorView::Other("No METAR found for station: "@ + icao)
}

/// Splits a trimmed TAF into its time blocks.
pub fn taf_lines(taf: &str) -> (lines: Vec<String>)
    ensures
        string_views(lines@) == taf_blocks(taf@),
{
    let v = chars_of(taf);
    let sep = chars_of("  ");
    proof {
        reveal_strlit("  ");
    }
    let pieces = split_chars(&v, &sep);
    let ghost pv = pieces@.map_values(|w: Vec<char>| w@);
    let mut lines: Vec<String> = Vec::new();
    let mut i: usize = 0;
    while i < pieces.len()
        invariant
            pv == pieces@.map_values(|w: Vec<char>| w@),
            i <= pieces.len(),
            string_views(lines@) == trimmed_nonempty(pv.take(i as int)),
        decreases pieces.len() - i,
    {
        assert(pv.take(i + 1).drop_last() =~= pv.take(i as int));
        assert(pv.take(i + 1).last() == pieces[i as int]@);
        let t = trim_chars(&pieces[i]);
        if t.len() > 0 {
            let ghost before = string_views(lines@);
            lines.push(string_of(&t));
            assert(string_views(lines@) =~= before.push(t@));
        }
        i = i + 1;
    }
    assert(pv.take(pieces.len() as int) =~= pv);
    lines
}

/// Builds the report of an aviation station from its raw METAR and TAF, as
/// observed at `now`; fails when the METAR is blank.
pub fn build_aviation_report(icao: &str, metar_raw: &str, taf_raw: &str, now: i64) -> (res: Result<
    WeatherReport,
    WeatherApiError,
>)
    ensures
        match res {
            Ok(r) => trim(metar_raw@).len() > 0 && r@ == aviation_report_view(
                icao@,
                metar_raw@,
                taf_raw@,
                now,
            ),
            Err(e) => trim(metar_raw@).len() == 0 && e@ == no_metar_error(icao@),
        },
{
    let metar = trim_str(metar_raw);
    if metar.as_str().is_empty() {
        let mut m = String::new();
        m.append("No METAR found for station: ");
        m.append(icao);
        return Err(WeatherApiError::Other(m));
    }
    let taf = trim_str(taf_raw);
    let station = to_uppercase(icao);
    let taf_report = if taf.as_str().is_empty() {
        None
    } else {
        let lines = taf_lines(taf.as_str());
        Some(TafReport { raw: taf, station_id: station.clone(), lines })
    };
    let report = WeatherReport {
        city_name: Some(station.clone()),
        state: None,
        country: Some(owned("")),
        temperature: 0,
        dew_point: None,
        feels_like: 0,
        temp_min: None,
        temp_max: None,
        pressure: None,
        humidity: None,
        current_precipitation_chance: None,
        wind_speed: 0,
        wind_deg: None,
        sunrise: None,
        sunset: None,
        weather_condition: WeatherCondition::Unknown,
        datetime: now,
        timezone_offset: None,
        latitude: 0,
        longitude: 0,
        daily_forecast: Vec::new(),
        hourly_forecast: Vec::new(),
        metar: Some(MetarReport { raw: metar, station_id: station, observation_time: now }),
        taf: taf_report,
    };
    assert(report@.daily_forecast =~= Seq::<crate::model::DailyForecastEntry>::empty());
    assert(report@.hourly_forecast =~= Seq::<crate::model::HourlyForecastEntry>::empty());
    Ok(report)
}

/// The error for a clock that cannot be read.
pub open spec fn clock_error() -> ErrorView {
    ErrorView::Other("The system clock cannot be read"@)
}

/// Whether the TAF is worth fetching after the METAR `metar_raw` came back:
/// only when the METAR is not blank (a blank one ends the request).
pub fn taf_is_needed(metar_raw: &str) -> (b: bool)
    ensures
        b == (trim(metar_raw@).len() > 0),
{
    let metar = trim_str(metar_raw);
    !metar.as_str().is_empty()
}

/// The report of an aviation station from its raw METAR and TAF, observed
/// now; fails when the METAR is blank, and else when the clock cannot be
/// read.
pub fn aviation_weather_report(icao: &str, metar_raw: &str, taf_raw: &str) -> (res: Result<
    WeatherReport,
    WeatherApiError,
>)
    ensures
        match res {
            Ok(r) => trim(metar_raw@).len() > 0 && r@ == aviation_report_view(
                icao@,
                metar_raw@,
                taf_raw@,
                r@.datetime,
            ),
            Err(e) => if trim(metar_raw@).len() == 0 {
                e@ == no_metar_error(icao@)
            } else {
                e@ == clock_error()
            },
        },
{
    if !taf_is_needed(metar_raw) {
        let mut m = String::new();
        m.append("No METAR found for station: ");
        m.append(icao);
        return Err(WeatherApiError::Other(m));
    }
    match unix_time_now() {
        Some(now) => build_aviation_report(icao, metar_raw, taf_raw, now),
        None => Err(WeatherApiError::Other(owned("The system clock cannot be read"))),
    }
}

} // verus!
