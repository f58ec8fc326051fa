//! Turning a weather report into the lines that the terminal shows.
use vstd::prelude::*;
use vstd::string::StringExecFns;
use crate::text::{
    byte_len, char_width, chars_equal, chars_of, digits, join, join_strings, lemma_byte_len_concat, owned,
    push_decimal, replace_all, replace_chars, split_words, str_byte_len,
    string_of, string_views, words,
};
use crate::fields::{
    clock_text, effective_offset, knots, local_offset, pressure_text, push_clock, push_knots,
    push_pressure, push_temperature, push_temperature_even, push_weekday, temperature_text,
    temperature_text_even, weekday_text,
};
use crate::model::{
    condition_emoji, DailyForecastEntry, HourlyForecastEntry, MetarView, ReportView, TafView,
    WeatherReport,
};
use crate::pattern::{regex_capture_pairs, regex_captures};

verus! {

/// The arrow for a wind from `degrees`, in eight sectors around the compass;
/// `❓` for a bearing above 360, which is no valid bearing.
pub open spec fn wind_arrow(degrees: u16) -> Seq<char> {
    if (349 <= degrees && degrees <= 360) || degrees <= 11 {
        "⬆️"@
    } else if 12 <= degrees && degrees <= 78 {
        "↗️"@
    } else if 79 <= degrees && degrees <= 101 {
        "➡️"@
    } else if 102 <= degrees && degrees <= 168 {
        "↘️"@
    } else if 169 <= degrees && degrees <= 191 {
        "⬇️"@
    } else if 192 <= degrees && degrees <= 258 {
        "↙️"@
    } else if 259 <= degrees && degrees <= 281 {
        "⬅️"@
    } else if 282 <= degrees && degrees <= 348 {
        "↖️"@
    } else {
        "❓"@
    }
}

/// The arrow emoji for a wind direction in degrees.
pub fn get_wind_direction_emoji(degrees: u16) -> (e: &'static str)
    ensures
        e@ == wind_arrow(degrees),
{
    match degrees {
        349..=360 | 0..=11 => "⬆️",
        12..=33 => "↗️",
        34..=56 => "↗️",
        57..=78 => "↗️",
        79..=101 => "➡️",
        102..=123 => "↘️",
        124..=146 => "↘️",
        147..=168 => "↘️",
        169..=191 => "⬇️",
        192..=213 => "↙️",
        214..=236 => "↙️",
        237..=258 => "↙️",
        259..=281 => "⬅️",
        282..=303 => "↖️",
        304..=326 => "↖️",
        327..=348 => "↖️",
        _ => "❓",
    }
}

/// The byte length of a character vector.
pub fn chars_byte_len(v: &Vec<char>) -> (n: u128)
    ensures
        n == byte_len(v@),
        n <= 4 * v.len(),
{
    let mut n: u128 = 0;
    let mut i: usize = 0;
    while i < v.len()
        invariant
            i <= v.len(),
            n == byte_len(v@.take(i as int)),
            n <= 4 * i,
        decreases v.len() - i,
    {
        let c = v[i];
        let u = c as u32;
        let w: u128 = if u <= 0x7F {
            1
        } else if u <= 0x7FF {
            2
        } else if u <= 0xFFFF {
            3
        } else {
            4
        };
        proof {
            assert(v@.take(i + 1) =~= v@.take(i as int) + seq![c]);
            lemma_byte_len_concat(v@.take(i as int), seq![c]);
            assert(byte_len(seq![c]) == char_width(c)) by {
                assert(seq![c].drop_first() =~= Seq::<char>::empty());
                assert(byte_len(Seq::<char>::empty()) == 0);
            }
        }
        n = n + w;
        i = i + 1;
    }
    assert(v@.take(v.len() as int) =~= v@);
    n
}

/// Four spaces, the indent of a continued line.
pub open spec fn indent() -> Seq<char> {
    seq![' ', ' ', ' ', ' ']
}

/// One step of line wrapping: the finished lines and the line being built,
/// after `word` is placed.
pub open spec fn wrap_step(
    state: (Seq<Seq<char>>, Seq<char>),
    word: Seq<char>,
    limit: nat,
) -> (Seq<Seq<char>>, Seq<char>) {
    let lines = state.0;
    let cur = state.1;
    let proposed = if cur.len() == 0 {
        word
    } else {
        cur + seq![' '] + word
    };
    if cur.len() > 0 && byte_len(proposed) > limit {
        (lines.push(cur), indent() + word)
    } else {
        (lines, proposed)
    }
}

/// Line wrapping after the words `ws` have been placed.
pub open spec fn wrap_words(ws: Seq<Seq<char>>, limit: nat) -> (Seq<Seq<char>>, Seq<char>)
    decreases ws.len(),
{
    if ws.len() == 0 {
        (seq![], seq![])
    } else {
        wrap_step(wrap_words(ws.drop_last(), limit), ws.last(), limit)
    }
}

/// The lines that `text` is wrapped into: `text` itself when it fits in
/// `limit` bytes, else its words, greedily filled into lines of at most
/// `limit` bytes, every line after a full one indented by four spaces.
pub open spec fn wrapped_lines(text: Seq<char>, limit: nat) -> Seq<Seq<char>> {
    if byte_len(text) <= limit {
        seq![text]
    } else {
        let st = wrap_words(words(text), limit);
        if st.1.len() > 0 {
            st.0.push(st.1)
        } else {
            st.0
        }
    }
}

/// The characters of each character vector.
pub open spec fn char_views(v: Seq<Vec<char>>) -> Seq<Seq<char>> {
    v.map_values(|w: Vec<char>| w@)
}

/// Wraps `text` into lines of at most `limit` bytes, splitting at white space
/// and indenting continued lines by four spaces; no word is dropped.
pub fn wrap_line(text: &str, limit: usize) -> (lines: Vec<String>)
    ensures
        crate::text::string_views(lines@) == wrapped_lines(text@, limit as nat),
{
    if str_byte_len(text) <= limit {
        let mut v: Vec<String> = Vec::new();
        v.push(owned(text));
        assert(crate::text::string_views(v@) =~= seq![text@]);
        return v;
    }
    let chars = chars_of(text);
    let ws = split_words(&chars);
    let ghost wsv = char_views(ws@);
    assert(wsv == words(text@));
    let mut lines: Vec<String> = Vec::new();
    let mut cur: Vec<char> = Vec::new();
    let mut i: usize = 0;
    while i < ws.len()
        invariant
            wsv == char_views(ws@),
            i <= ws.len(),
            (crate::text::string_views(lines@), cur@) == wrap_words(wsv.take(i as int), limit as nat),
        decreases ws.len() - i,
    {
        let word = &ws[i];
        let ghost before = crate::text::string_views(lines@);
        let ghost old_cur = cur@;
        assert(wsv.take(i + 1).drop_last() =~= wsv.take(i as int));
        assert(wsv[i as int] == word@);
        let mut proposed: Vec<char> = Vec::new();
        if cur.len() == 0 {
            proposed = word.clone();
        } else {
            proposed = cur.clone();
            proposed.push(' ');
            let mut j: usize = 0;
            while j < word.len()
                invariant
                    j <= word.len(),
                    proposed@ == old_cur + seq![' '] + word@.take(j as int),
                decreases word.len() - j,
            {
                proposed.push(word[j]);
                j = j + 1;
                assert(proposed@ =~= old_cur + seq![' '] + word@.take(j as int));
            }
            assert(word@.take(word.len() as int) =~= word@);
        }
        if cur.len() > 0 && chars_byte_len(&proposed) > limit as u128 {
            lines.push(string_of(&cur));
            assert(crate::text::string_views(lines@) =~= before.push(old_cur));
            let mut next: Vec<char> = Vec::new();
            next.push(' ');
            next.push(' ');
            next.push(' ');
            next.push(' ');
            let mut j: usize = 0;
            while j < word.len()
                invariant
                    j <= word.len(),
                    next@ == indent() + word@.take(j as int),
                decreases word.len() - j,
            {
                next.push(word[j]);
                j = j + 1;
                assert(next@ =~= indent() + word@.take(j as int));
            }
            assert(word@.take(word.len() as int) =~= word@);
            cur = next;
        } else {
            cur = proposed;
        }
        i = i + 1;
    }
    assert(wsv.take(ws.len() as int) =~= wsv);
    if cur.len() > 0 {
        let ghost before = crate::text::string_views(lines@);
        lines.push(string_of(&cur));
        assert(crate::text::string_views(lines@) =~= before.push(cur@));
    }
    lines
}


/// The separator between forecast entries that share a line.
pub open spec fn entry_separator() -> Seq<char> {
    seq![' ', '|', ' ']
}

/// One step of packing forecast entries into lines: the finished lines and
/// the line being built, after entry `e` is placed.
pub open spec fn pack_step(
    state: (Seq<Seq<char>>, Seq<char>),
    e: Seq<char>,
    limit: nat,
) -> (Seq<Seq<char>>, Seq<char>) {
    let lines = state.0;
    let cur = state.1;
    if cur.len() == 0 {
        (lines, e)
    } else if byte_len(cur) + 3 + byte_len(e) <= limit {
        (lines, cur + entry_separator() + e)
    } else {
        (lines.push(cur), e)
    }
}

/// Packing after the entries `es` have been placed.
pub open spec fn pack_fold(es: Seq<Seq<char>>, limit: nat) -> (Seq<Seq<char>>, Seq<char>)
    decreases es.len(),
{
    if es.len() == 0 {
        (seq![], seq![])
    } else {
        pack_step(pack_fold(es.drop_last(), limit), es.last(), limit)
    }
}

/// Forecast entries packed greedily into lines of at most `limit` bytes,
/// entries on one line separated by ` | `.
pub open spec fn packed_lines(es: Seq<Seq<char>>, limit: nat) -> Seq<Seq<char>> {
    if es.len() == 0 {
        seq![]
    } else {
        let st = pack_fold(es, limit);
        st.0.push(st.1)
    }
}

/// Packs forecast entries into lines of at most `limit` bytes.
pub fn pack_entries(entries: &Vec<String>, limit: usize) -> (lines: Vec<String>)
    ensures
        crate::text::string_views(lines@) == packed_lines(crate::text::string_views(entries@), limit as nat),
{
    let ghost es = crate::text::string_views(entries@);
    let mut lines: Vec<String> = Vec::new();
    let mut cur: Vec<char> = Vec::new();
    let mut cur_len: u128 = 0;
    let mut i: usize = 0;
    while i < entries.len()
        invariant
            es == crate::text::string_views(entries@),
            i <= entries.len(),
            (crate::text::string_views(lines@), cur@) == pack_fold(es.take(i as int), limit as nat),
            cur_len == byte_len(cur@),
            cur_len <= 4 * cur.len(),
        decreases entries.len() - i,
    {
        let e = chars_of(entries[i].as_str());
        let e_len = chars_byte_len(&e);
        let ghost before = crate::text::string_views(lines@);
        let ghost old_cur = cur@;
        assert(es.take(i + 1).drop_last() =~= es.take(i as int));
        assert(es[i as int] == e@);
        if cur.len() == 0 {
            cur = e;
            cur_len = e_len;
        } else if cur_len + 3 + e_len <= limit as u128 {
            cur.push(' ');
            cur.push('|');
            cur.push(' ');
            let mut j: usize = 0;
            while j < e.len()
                invariant
                    j <= e.len(),
                    cur@ == old_cur + entry_separator() + e@.take(j as int),
                decreases e.len() - j,
            {
                cur.push(e[j]);
                j = j + 1;
                assert(cur@ =~= old_cur + entry_separator() + e@.take(j as int));
            }
            assert(e@.take(e.len() as int) =~= e@);
            cur_len = chars_byte_len(&cur);
        } else {
            lines.push(string_of(&cur));
            assert(crate::text::string_views(lines@) =~= before.push(old_cur));
            cur = e;
            cur_len = e_len;
        }
        i = i + 1;
    }
    assert(es.take(entries.len() as int) =~= es);
    if entries.len() > 0 {
        let ghost before = crate::text::string_views(lines@);
        lines.push(string_of(&cur));
        assert(crate::text::string_views(lines@) =~= before.push(cur@));
    } else {
        assert(crate::text::string_views(lines@) =~= Seq::<Seq<char>>::empty());
    }
    lines
}


/// The text of an optional string, or `d` when there is none.
pub open spec fn or_text(o: Option<Seq<char>>, d: Seq<char>) -> Seq<char> {
    match o {
        Some(t) => t,
        None => d,
    }
}

/// `City, State, Country`, or `City, Country` when the state is missing or
/// empty; a missing city or country reads `N/A`.
pub open spec fn location_text(r: ReportView) -> Seq<char> {
    let city = or_text(r.city_name, "N/A"@);
    let state = or_text(r.state, ""@);
    let country = or_text(r.country, "N/A"@);
    if state.len() == 0 {
        city + ", "@ + country
    } else {
        city + ", "@ + state + ", "@ + country
    }
}

/// Today's high and low: those of the first daily forecast entry when there
/// is one, else the report's own.
pub open spec fn hi_lo(r: ReportView) -> (Option<i64>, Option<i64>) {
    if r.daily_forecast.len() > 0 {
        (Some(r.daily_forecast[0].temp_max), Some(r.daily_forecast[0].temp_min))
    } else {
        (r.temp_max, r.temp_min)
    }
}

/// The high/low part of the current-weather line.
pub open spec fn hilo_text(r: ReportView) -> Seq<char> {
    match hi_lo(r) {
        (Some(mx), Some(mn)) => " Hi:"@ + temperature_text(mx as int) + "F Lo:"@ + temperature_text(
            mn as int,
        ) + "F"@,
        (Some(mx), None) => " Hi:"@ + temperature_text(mx as int) + "F Lo:N/A"@,
        (None, Some(mn)) => " Hi:N/A Lo:"@ + temperature_text(mn as int) + "F"@,
        (None, None) => " Hi:N/A Lo:N/A"@,
    }
}

/// The dew-point part of the current-weather line (empty when unknown).
pub open spec fn dew_text(d: Option<i64>) -> Seq<char> {
    match d {
        Some(t) => " 💧"@ + temperature_text(t as int) + "F"@,
        None => ""@,
    }
}

/// A percentage, or `N/A`.
pub open spec fn percent_or_na(h: Option<u8>) -> Seq<char> {
    match h {
        Some(v) => digits(v as nat),
        None => "N/A"@,
    }
}

/// The chance-of-precipitation part of the current-weather line.
pub open spec fn precip_text(p: Option<u8>) -> Seq<char> {
    match p {
        Some(v) => " ☔"@ + digits(v as nat) + "%"@,
        None => ""@,
    }
}

/// The wind-direction arrow, `❓` when the direction is unknown.
pub open spec fn wind_emoji_text(d: Option<u16>) -> Seq<char> {
    match d {
        Some(v) => wind_arrow(v),
        None => "❓"@,
    }
}

/// The pressure in inches of mercury, or `N/A`.
pub open spec fn pressure_or_na(p: Option<u16>) -> Seq<char> {
    match p {
        Some(v) => pressure_text(v),
        None => "N/A"@,
    }
}

/// A local `HH:MM` time, or `N/A`.
pub open spec fn time_or_na(t: Option<i64>, offset: Option<i32>) -> Seq<char> {
    match t {
        Some(ts) => clock_text(ts as int, effective_offset(offset)),
        None => "N/A"@,
    }
}

/// The built-in current-weather line.
pub open spec fn default_line(r: ReportView) -> Seq<char> {
    "📍"@ + location_text(r) + " 🌡️"@ + temperature_text(r.temperature as int) + "F"@ + dew_text(
        r.dew_point,
    ) + " "@ + hilo_text(r) + " "@ + condition_emoji(r.weather_condition) + " "@ + percent_or_na(
        r.humidity,
    ) + "%"@ + precip_text(r.current_precipitation_chance) + " "@ + wind_emoji_text(r.wind_deg)
        + digits(knots(r.wind_speed)) + "kts "@ + pressure_or_na(r.pressure) + "Hg 🌅"@ + time_or_na(
        r.sunrise,
        r.timezone_offset,
    ) + " 🌇"@ + time_or_na(r.sunset, r.timezone_offset)
}

/// Spells the report's location.
pub fn location_display(report: &WeatherReport) -> (s: String)
    ensures
        s@ == location_text(report@),
{
    let city: &str = match &report.city_name {
        Some(c) => c.as_str(),
        None => "N/A",
    };
    let state: &str = match &report.state {
        Some(c) => c.as_str(),
        None => "",
    };
    let country: &str = match &report.country {
        Some(c) => c.as_str(),
        None => "N/A",
    };
    let mut s = String::new();
    s.append(city);
    s.append(", ");
    if !state.is_empty() {
        s.append(state);
        s.append(", ");
    }
    s.append(country);
    assert(s@ =~= location_text(report@));
    s
}

/// Today's high and low temperatures.
fn today_hi_lo(report: &WeatherReport) -> (r: (Option<i64>, Option<i64>))
    ensures
        r == hi_lo(report@),
{
    if report.daily_forecast.len() > 0 {
        (Some(report.daily_forecast[0].temp_max), Some(report.daily_forecast[0].temp_min))
    } else {
        (report.temp_max, report.temp_min)
    }
}

/// Appends an optional local time, or `N/A`.
fn push_time_or_na(s: &mut String, t: Option<i64>, offset: Option<i32>)
    ensures
        final(s)@ == old(s)@ + time_or_na(t, offset),
{
    match t {
        Some(ts) => {
            let o = local_offset(offset);
            push_clock(s, ts, o);
        },
        None => {
            s.append("N/A");
        },
    }
}

/// Appends an optional percentage, or `N/A`.
fn push_percent_or_na(s: &mut String, h: Option<u8>)
    ensures
        final(s)@ == old(s)@ + percent_or_na(h),
{
    match h {
        Some(v) => push_decimal(s, v as u64),
        None => s.append("N/A"),
    }
}

/// Appends an optional pressure, or `N/A`.
fn push_pressure_or_na(s: &mut String, p: Option<u16>)
    ensures
        final(s)@ == old(s)@ + pressure_or_na(p),
{
    match p {
        Some(v) => push_pressure(s, v),
        None => s.append("N/A"),
    }
}

/// Appends the wind arrow, `❓` when the direction is unknown.
fn push_wind_emoji(s: &mut String, d: Option<u16>)
    ensures
        final(s)@ == old(s)@ + wind_emoji_text(d),
{
    match d {
        Some(v) => s.append(get_wind_direction_emoji(v)),
        None => s.append("❓"),
    }
}

/// Appends the dew-point part of the current-weather line.
fn push_dew(s: &mut String, d: Option<i64>)
    ensures
        final(s)@ == old(s)@ + dew_text(d),
{
    match d {
        Some(t) => {
            s.append(" 💧");
            push_temperature(s, t);
            s.append("F");
            assert(final(s)@ =~= old(s)@ + dew_text(d));
        },
        None => {
            proof {
                reveal_strlit("");
            }
            assert(final(s)@ =~= old(s)@ + ""@);
        },
    }
}

/// Appends the high/low part of the current-weather line.
fn push_hilo(s: &mut String, report: &WeatherReport)
    ensures
        final(s)@ == old(s)@ + hilo_text(report@),
{
    match today_hi_lo(report) {
        (Some(mx), Some(mn)) => {
            s.append(" Hi:");
            push_temperature(s, mx);
            s.append("F Lo:");
            push_temperature(s, mn);
            s.append("F");
        },
        (Some(mx), None) => {
            s.append(" Hi:");
            push_temperature(s, mx);
            s.append("F Lo:N/A");
        },
        (None, Some(mn)) => {
            s.append(" Hi:N/A Lo:");
            push_temperature(s, mn);
            s.append("F");
        },
        (None, None) => {
            s.append(" Hi:N/A Lo:N/A");
        },
    }
    assert(final(s)@ =~= old(s)@ + hilo_text(report@));
}

/// Appends the chance-of-precipitation part of the current-weather line.
fn push_precip(s: &mut String, p: Option<u8>)
    ensures
        final(s)@ == old(s)@ + precip_text(p),
{
    match p {
        Some(v) => {
            s.append(" ☔");
            push_decimal(s, v as u64);
            s.append("%");
            assert(final(s)@ =~= old(s)@ + precip_text(p));
        },
        None => {
            proof {
                reveal_strlit("");
            }
            assert(final(s)@ =~= old(s)@ + ""@);
        },
    }
}

/// The built-in current-weather line: location, temperature, dew point,
/// today's high and low, condition, humidity, chance of precipitation, wind,
/// pressure, sunrise and sunset.
pub fn build_default_current_weather_line(report: &WeatherReport) -> (line: String)
    ensures
        line@ == default_line(report@),
{
    let ghost r = report@;
    let mut s = String::new();
    s.append("📍");
    let loc = location_display(report);
    s.append(loc.as_str());
    s.append(" 🌡️");
    push_temperature(&mut s, report.temperature);
    s.append("F");
    push_dew(&mut s, report.dew_point);
    s.append(" ");
    push_hilo(&mut s, report);
    s.append(" ");
    s.append(report.weather_condition.emoji());
    s.append(" ");
    push_percent_or_na(&mut s, report.humidity);
    s.append("%");
    push_precip(&mut s, report.current_precipitation_chance);
    let ghost a1 = s@;
    assert(a1 =~= "📍"@ + location_text(r) + " 🌡️"@ + temperature_text(r.temperature as int) + "F"@
        + dew_text(r.dew_point) + " "@ + hilo_text(r) + " "@ + condition_emoji(r.weather_condition)
        + " "@ + percent_or_na(r.humidity) + "%"@ + precip_text(r.current_precipitation_chance));
    s.append(" ");
    push_wind_emoji(&mut s, report.wind_deg);
    push_knots(&mut s, report.wind_speed);
    s.append("kts ");
    push_pressure_or_na(&mut s, report.pressure);
    s.append("Hg 🌅");
    push_time_or_na(&mut s, report.sunrise, report.timezone_offset);
    s.append(" 🌇");
    push_time_or_na(&mut s, report.sunset, report.timezone_offset);
    assert(s@ =~= a1 + " "@ + wind_emoji_text(r.wind_deg) + digits(knots(r.wind_speed)) + "kts "@
        + pressure_or_na(r.pressure) + "Hg 🌅"@ + time_or_na(r.sunrise, r.timezone_offset) + " 🌇"@
        + time_or_na(r.sunset, r.timezone_offset));
    s
}


/// One day of the daily forecast: `Ddd: Hi 77F Lo 59F ☁️ ☔30%`.
pub open spec fn daily_entry_text(e: DailyForecastEntry) -> Seq<char> {
    weekday_text(e.date as int) + ": Hi "@ + temperature_text_even(e.temp_max as int) + "F Lo "@
        + temperature_text_even(e.temp_min as int) + "F "@ + condition_emoji(e.weather_condition)
        + " "@ + match e.precipitation_chance {
        Some(p) => "☔"@ + digits(p as nat) + "%"@,
        None => "N/A"@,
    }
}

/// One hour of the hourly forecast: `HH:MM 41☁️☔10%`, the chance of
/// precipitation shown only when above zero.
pub open spec fn hourly_entry_text(e: HourlyForecastEntry, offset: Option<i32>) -> Seq<char> {
    clock_text(e.time as int, effective_offset(offset)) + " "@ + temperature_text(e.temperature as int)
        + condition_emoji(e.weather_condition) + match e.precipitation_chance {
        Some(p) => if p > 0 {
            "☔"@ + digits(p as nat) + "%"@
        } else {
            ""@
        },
        None => ""@,
    }
}

/// The daily forecast entries of a report, spelled.
pub open spec fn daily_texts(r: ReportView) -> Seq<Seq<char>> {
    r.daily_forecast.map_values(|e: DailyForecastEntry| daily_entry_text(e))
}

/// The hourly forecast entries of a report, spelled.
pub open spec fn hourly_texts(r: ReportView) -> Seq<Seq<char>> {
    r.hourly_forecast.map_values(|e: HourlyForecastEntry| hourly_entry_text(e, r.timezone_offset))
}

/// Spells one day of the daily forecast.
pub fn daily_entry(e: &DailyForecastEntry) -> (s: String)
    ensures
        s@ == daily_entry_text(*e),
{
    let mut s = String::new();
    push_weekday(&mut s, e.date);
    s.append(": Hi ");
    push_temperature_even(&mut s, e.temp_max);
    s.append("F Lo ");
    push_temperature_even(&mut s, e.temp_min);
    s.append("F ");
    s.append(e.weather_condition.emoji());
    s.append(" ");
    match e.precipitation_chance {
        Some(p) => {
            s.append("☔");
            push_decimal(&mut s, p as u64);
            s.append("%");
        },
        None => {
            s.append("N/A");
        },
    }
    assert(s@ =~= daily_entry_text(*e));
    s
}

/// Spells one hour of the hourly forecast.
pub fn hourly_entry(e: &HourlyForecastEntry, offset: Option<i32>) -> (s: String)
    ensures
        s@ == hourly_entry_text(*e, offset),
{
    let mut s = String::new();
    let o = local_offset(offset);
    push_clock(&mut s, e.time, o);
    s.append(" ");
    push_temperature(&mut s, e.temperature);
    s.append(e.weather_condition.emoji());
    match e.precipitation_chance {
        Some(p) => {
            if p > 0 {
                s.append("☔");
                push_decimal(&mut s, p as u64);
                s.append("%");
            }
        },
        None => {},
    }
    proof {
        reveal_strlit("");
    }
    assert(s@ =~= hourly_entry_text(*e, offset));
    s
}

/// The daily forecast, packed into lines of at most 80 bytes.
pub fn format_daily_forecast(report: &WeatherReport) -> (lines: Vec<String>)
    ensures
        string_views(lines@) == packed_lines(daily_texts(report@), 80),
{
    let mut entries: Vec<String> = Vec::new();
    let mut i: usize = 0;
    while i < report.daily_forecast.len()
        invariant
            i <= report.daily_forecast.len(),
            string_views(entries@) == daily_texts(report@).take(i as int),
        decreases report.daily_forecast.len() - i,
    {
        let e = daily_entry(&report.daily_forecast[i]);
        let ghost prev = string_views(entries@);
        let ghost ev = e@;
        assert(daily_texts(report@)[i as int] == ev);
        entries.push(e);
        assert(string_views(entries@) =~= prev.push(ev));
        assert(daily_texts(report@).take(i + 1) =~= daily_texts(report@).take(i as int).push(ev));
        i = i + 1;
    }
    assert(daily_texts(report@).take(i as int) =~= daily_texts(report@));
    pack_entries(&entries, 80)
}

/// The hourly forecast, packed into lines of at most 80 bytes, times shown
/// at the report's offset from UTC.
pub fn format_hourly_forecast(report: &WeatherReport) -> (lines: Vec<String>)
    ensures
        string_views(lines@) == packed_lines(hourly_texts(report@), 80),
{
    let mut entries: Vec<String> = Vec::new();
    let mut i: usize = 0;
    while i < report.hourly_forecast.len()
        invariant
            i <= report.hourly_forecast.len(),
            string_views(entries@) == hourly_texts(report@).take(i as int),
        decreases report.hourly_forecast.len() - i,
    {
        let e = hourly_entry(&report.hourly_forecast[i], report.timezone_offset);
        let ghost prev = string_views(entries@);
        let ghost ev = e@;
        assert(hourly_texts(report@)[i as int] == ev);
        entries.push(e);
        assert(string_views(entries@) =~= prev.push(ev));
        assert(hourly_texts(report@).take(i + 1) =~= hourly_texts(report@).take(i as int).push(ev));
        i = i + 1;
    }
    assert(hourly_texts(report@).take(i as int) =~= hourly_texts(report@));
    pack_entries(&entries, 80)
}


/// A temperature in tenths of a degree rounded to whole degrees, or `N/A`.
pub open spec fn temp_or_na(t: Option<i64>) -> Seq<char> {
    match t {
        Some(v) => temperature_text(v as int),
        None => "N/A"@,
    }
}

/// The value that a custom format substitutes for the variable `name`, when
/// `name` is one of the variables it knows.
pub open spec fn template_value(r: ReportView, name: Seq<char>) -> Option<Seq<char>> {
    if name == "location"@ {
        Some(location_text(r))
    } else if name == "temp"@ {
        Some(temperature_text(r.temperature as int))
    } else if name == "dew_point"@ {
        Some(temp_or_na(r.dew_point))
    } else if name == "hilo"@ {
        Some(
            match hi_lo(r) {
                (Some(mx), Some(mn)) => "Hi:"@ + temperature_text(mx as int) + "F Lo:"@
                    + temperature_text(mn as int) + "F"@,
                _ => "N/A"@,
            },
        )
    } else if name == "temp_max"@ {
        Some(temp_or_na(hi_lo(r).0))
    } else if name == "temp_min"@ {
        Some(temp_or_na(hi_lo(r).1))
    } else if name == "feels_like"@ {
        Some(temperature_text(r.feels_like as int))
    } else if name == "condition_emoji"@ {
        Some(condition_emoji(r.weather_condition))
    } else if name == "wind_speed"@ {
        Some(digits(knots(r.wind_speed)))
    } else if name == "wind_dir"@ {
        Some(
            match r.wind_deg {
                Some(d) => digits(d as nat),
                None => "N/A"@,
            },
        )
    } else if name == "wind_emoji"@ {
        Some(wind_emoji_text(r.wind_deg))
    } else if name == "humidity"@ {
        Some(percent_or_na(r.humidity))
    } else if name == "pressure"@ {
        Some(pressure_or_na(r.pressure))
    } else if name == "sunrise"@ {
        Some(time_or_na(r.sunrise, r.timezone_offset))
    } else if name == "sunset"@ {
        Some(time_or_na(r.sunset, r.timezone_offset))
    } else {
        None
    }
}

/// A custom format after the placeholders `caps` (each the matched text and
/// the variable name it holds) have been substituted in turn: each known
/// variable's placeholder is replaced everywhere in the line as it stands.
pub open spec fn apply_template(
    line: Seq<char>,
    caps: Seq<(Seq<char>, Option<Seq<char>>)>,
    r: ReportView,
) -> Seq<char>
    decreases caps.len(),
{
    if caps.len() == 0 {
        line
    } else {
        let prev = apply_template(line, caps.drop_last(), r);
        let c = caps.last();
        match c.1 {
            Some(name) => match template_value(r, name) {
                Some(v) => replace_all(prev, c.0, v),
                None => prev,
            },
            None => prev,
        }
    }
}

/// Spells an optional temperature, or `N/A`.
fn temp_or_na_string(t: Option<i64>) -> (s: String)
    ensures
        s@ == temp_or_na(t),
{
    let mut s = String::new();
    match t {
        Some(v) => push_temperature(&mut s, v),
        None => s.append("N/A"),
    }
    assert(s@ =~= temp_or_na(t));
    s
}

/// Whether `name` spells `lit`.
fn is_name(name: &Vec<char>, lit: &str) -> (b: bool)
    ensures
        b == (name@ == lit@),
{
    let l = chars_of(lit);
    chars_equal(name, &l)
}

/// The value of a custom-format variable, when the variable is known.
pub fn template_value_for(report: &WeatherReport, name: &Vec<char>) -> (v: Option<String>)
    ensures
        v.deep_view() == template_value(report@, name@),
{
    let ghost r = report@;
    if is_name(name, "location") {
        Some(location_display(report))
    } else if is_name(name, "temp") {
        let mut s = String::new();
        push_temperature(&mut s, report.temperature);
        assert(s@ =~= temperature_text(report.temperature as int));
        Some(s)
    } else if is_name(name, "dew_point") {
        Some(temp_or_na_string(report.dew_point))
    } else if is_name(name, "hilo") {
        let mut s = String::new();
        match today_hi_lo(report) {
            (Some(mx), Some(mn)) => {
                s.append("Hi:");
                push_temperature(&mut s, mx);
                s.append("F Lo:");
                push_temperature(&mut s, mn);
                s.append("F");
            },
            _ => s.append("N/A"),
        }
        assert(Some(s@) =~= template_value(r, name@));
        Some(s)
    } else if is_name(name, "temp_max") {
        Some(temp_or_na_string(today_hi_lo(report).0))
    } else if is_name(name, "temp_min") {
        Some(temp_or_na_string(today_hi_lo(report).1))
    } else if is_name(name, "feels_like") {
        let mut s = String::new();
        push_temperature(&mut s, report.feels_like);
        assert(s@ =~= temperature_text(report.feels_like as int));
        Some(s)
    } else if is_name(name, "condition_emoji") {
        Some(owned(report.weather_condition.emoji()))
    } else if is_name(name, "wind_speed") {
        let mut s = String::new();
        push_knots(&mut s, report.wind_speed);
        assert(s@ =~= digits(knots(report.wind_speed)));
        Some(s)
    } else if is_name(name, "wind_dir") {
        let mut s = String::new();
        match report.wind_deg {
            Some(d) => push_decimal(&mut s, d as u64),
            None => s.append("N/A"),
        }
        assert(Some(s@) =~= template_value(r, name@));
        Some(s)
    } else if is_name(name, "wind_emoji") {
        let mut s = String::new();
        push_wind_emoji(&mut s, report.wind_deg);
        assert(s@ =~= wind_emoji_text(report.wind_deg));
        Some(s)
    } else if is_name(name, "humidity") {
        let mut s = String::new();
        push_percent_or_na(&mut s, report.humidity);
        assert(s@ =~= percent_or_na(report.humidity));
        Some(s)
    } else if is_name(name, "pressure") {
        let mut s = String::new();
        push_pressure_or_na(&mut s, report.pressure);
        assert(s@ =~= pressure_or_na(report.pressure));
        Some(s)
    } else if is_name(name, "sunrise") {
        let mut s = String::new();
        push_time_or_na(&mut s, report.sunrise, report.timezone_offset);
        assert(s@ =~= time_or_na(report.sunrise, report.timezone_offset));
        Some(s)
    } else if is_name(name, "sunset") {
        let mut s = String::new();
        push_time_or_na(&mut s, report.sunset, report.timezone_offset);
        assert(s@ =~= time_or_na(report.sunset, report.timezone_offset));
        Some(s)
    } else {
        None
    }
}

/// Substitutes the report's values into a custom format, placeholder by
/// placeholder, given the placeholders found in it (each the matched text and
/// the variable name it holds).
pub fn apply_template_captures(
    template: &str,
    captures: &Vec<(String, Option<String>)>,
    report: &WeatherReport,
) -> (line: String)
    ensures
        line@ == apply_template(template@, captures.deep_view(), report@),
{
    let ghost caps = captures.deep_view();
    let mut line = chars_of(template);
    let mut i: usize = 0;
    while i < captures.len()
        invariant
            caps == captures.deep_view(),
            i <= captures.len(),
            line@ == apply_template(template@, caps.take(i as int), report@),
        decreases captures.len() - i,
    {
        assert(caps.take(i + 1).drop_last() =~= caps.take(i as int));
        assert(caps.take(i + 1).last() == caps[i as int]);
        let (placeholder, name_opt) = &captures[i];
        assert(caps[i as int].0 == placeholder@);
        assert(caps[i as int].1 == name_opt.deep_view());
        match name_opt {
            Some(name) => {
                let name_chars = chars_of(name.as_str());
                match template_value_for(report, &name_chars) {
                    Some(value) => {
                        let pat = chars_of(placeholder.as_str());
                        let rep = chars_of(value.as_str());
                        line = replace_chars(&line, &pat, &rep);
                    },
                    None => {},
                }
            },
            None => {},
        }
        i = i + 1;
    }
    assert(caps.take(captures.len() as int) =~= caps);
    string_of(&line)
}

/// The pattern of a placeholder in a custom format: a word in braces.
pub open spec fn placeholder_pattern() -> Seq<char> {
    "\\{(\\w+)\\}"@
}

/// A custom format with the report's values substituted for its
/// placeholders; the format unchanged if no placeholders can be found.
pub open spec fn custom_line(r: ReportView, template: Seq<char>) -> Seq<char> {
    match regex_captures(placeholder_pattern(), template) {
        Some(caps) => apply_template(template, caps, r),
        None => template,
    }
}

/// The current-weather line: the built-in line for an aviation report, when
/// no custom format is set, or when it is empty; else the custom format
/// filled in.
pub open spec fn current_line(r: ReportView, custom: Option<Seq<char>>, default: Seq<char>) -> Seq<char> {
    if r.metar is Some {
        default
    } else {
        match custom {
            Some(t) => if t.len() == 0 {
                default
            } else {
                custom_line(r, t)
            },
            None => default,
        }
    }
}

/// Fills a custom format in with the report's values.
pub fn render_template(report: &WeatherReport, template: &str) -> (line: String)
    ensures
        line@ == custom_line(report@, template@),
{
    match regex_capture_pairs("\\{(\\w+)\\}", template) {
        Some(caps) => apply_template_captures(template, &caps, report),
        None => owned(template),
    }
}

/// The current-weather line, from a custom format when one applies.
pub fn format_current_weather_line(
    report: &WeatherReport,
    custom_format: Option<&String>,
    default_line: &str,
) -> (line: String)
    ensures
        line@ == current_line(
            report@,
            match custom_format {
                Some(t) => Some(t@),
                None => None,
            },
            default_line@,
        ),
{
    if report.metar.is_some() {
        return owned(default_line);
    }
    match custom_format {
        Some(template) => {
            if template.as_str().is_empty() {
                owned(default_line)
            } else {
                render_template(report, template.as_str())
            }
        },
        None => owned(default_line),
    }
}


/// The notice that ends every aviation report.
pub open spec fn aviation_disclaimer() -> Seq<char> {
    "⚠️ NOT FOR FLIGHT PLANNING. Consult aviationweather.gov for official briefings."@
}

/// Each line wrapped to 80 bytes, the pieces in order.
pub open spec fn wrap_all(lines: Seq<Seq<char>>) -> Seq<Seq<char>>
    decreases lines.len(),
{
    if lines.len() == 0 {
        seq![]
    } else {
        wrap_all(lines.drop_last()) + wrapped_lines(lines.last(), 80)
    }
}

/// The lines of an aviation report: the METAR (wrapped to 80 bytes), then,
/// when the forecast is asked for, the TAF time blocks (each wrapped) or a
/// note that there is none, then the disclaimer.
pub open spec fn aviation_lines(m: MetarView, taf: Option<TafView>, show_forecast: bool) -> Seq<
    Seq<char>,
> {
    wrapped_lines("📍"@ + m.station_id + " (METAR) "@ + m.raw, 80) + (if show_forecast {
        match taf {
            Some(t) => seq!["Forecast (TAF):"@] + wrap_all(t.lines),
            None => seq!["No TAF available for this station."@],
        }
    } else {
        seq![]
    }) + seq![aviation_disclaimer()]
}

/// The lines of a standard report: the current-weather line, then the daily
/// forecast when asked for and present, then the hourly forecast under its
/// heading when asked for and present.
pub open spec fn standard_lines(
    r: ReportView,
    show_forecast: bool,
    show_hourly: bool,
    custom: Option<Seq<char>>,
) -> Seq<Seq<char>> {
    seq![current_line(r, custom, default_line(r))] + (if show_forecast && r.daily_forecast.len() > 0 {
        packed_lines(daily_texts(r), 80)
    } else {
        seq![]
    }) + (if show_hourly && r.hourly_forecast.len() > 0 {
        seq!["Hourly Forecast:"@] + packed_lines(hourly_texts(r), 80)
    } else {
        seq![]
    })
}

/// The lines of a report.
pub open spec fn report_lines(
    r: ReportView,
    show_forecast: bool,
    show_hourly: bool,
    custom: Option<Seq<char>>,
) -> Seq<Seq<char>> {
    match r.metar {
        Some(m) => aviation_lines(m, r.taf, show_forecast),
        None => standard_lines(r, show_forecast, show_hourly, custom),
    }
}

/// Appends copies of the strings of `more` to `lines`.
fn extend_lines(lines: &mut Vec<String>, more: &Vec<String>)
    ensures
        string_views(final(lines)@) == string_views(old(lines)@) + string_views(more@),
{
    let ghost start = string_views(lines@);
    let ghost mv = string_views(more@);
    let mut j: usize = 0;
    while j < more.len()
        invariant
            j <= more.len(),
            mv == string_views(more@),
            string_views(lines@) == start + mv.take(j as int),
        decreases more.len() - j,
    {
        let x = more[j].clone();
        let ghost lo = string_views(lines@);
        lines.push(x);
        assert(string_views(lines@) =~= lo.push(mv[j as int]));
        assert(mv.take(j + 1) =~= mv.take(j as int).push(mv[j as int]));
        j = j + 1;
    }
    assert(mv.take(more.len() as int) =~= mv);
}

/// The lines of a weather report for the terminal (see
/// `format_weather_report`).
pub fn report_line_strings(
    report: &WeatherReport,
    show_forecast: bool,
    show_hourly: bool,
    custom_format: Option<&String>,
) -> (output: Vec<String>)
    ensures
        string_views(output@) == report_lines(
            report@,
            show_forecast,
            show_hourly,
            match custom_format {
                Some(t) => Some(t@),
                None => None,
            },
        ),
{
    let ghost r = report@;
    let ghost custom = match custom_format {
        Some(t) => Some(t@),
        None => None,
    };
    let mut output: Vec<String> = Vec::new();
    match &report.metar {
        Some(metar) => {
            let mut first = String::new();
            first.append("📍");
            first.append(metar.station_id.as_str());
            first.append(" (METAR) ");
            first.append(metar.raw.as_str());
            assert(first@ =~= "📍"@ + metar.station_id@ + " (METAR) "@ + metar.raw@);
            extend_lines(&mut output, &wrap_line(first.as_str(), 80));
            let ghost after_metar = string_views(output@);
            if show_forecast {
                match &report.taf {
                    Some(taf) => {
                        output.push(owned("Forecast (TAF):"));
                        let ghost base = string_views(output@);
                        let ghost tl = string_views(taf.lines@);
                        let mut i: usize = 0;
                        while i < taf.lines.len()
                            invariant
                                tl == string_views(taf.lines@),
                                i <= taf.lines.len(),
                                string_views(output@) == base + wrap_all(tl.take(i as int)),
                            decreases taf.lines.len() - i,
                        {
                            assert(tl.take(i + 1).drop_last() =~= tl.take(i as int));
                            assert(tl.take(i + 1).last() == taf.lines[i as int]@);
                            extend_lines(&mut output, &wrap_line(taf.lines[i].as_str(), 80));
                            i = i + 1;
                        }
                        assert(tl.take(taf.lines.len() as int) =~= tl);
                        assert(string_views(output@) =~= after_metar + (seq!["Forecast (TAF):"@]
                            + wrap_all(tl)));
                    },
                    None => {
                        output.push(owned("No TAF available for this station."));
                    },
                }
            }
            let ghost before_notice = string_views(output@);
            output.push(
                owned("⚠️ NOT FOR FLIGHT PLANNING. Consult aviationweather.gov for official briefings."),
            );
            assert(string_views(output@) =~= before_notice.push(aviation_disclaimer()));
            assert(string_views(output@) =~= report_lines(r, show_forecast, show_hourly, custom));
        },
        None => {
            let default = build_default_current_weather_line(report);
            let line = format_current_weather_line(report, custom_format, default.as_str());
            output.push(line);
            assert(string_views(output@) =~= seq![current_line(r, custom, default_line(r))]);
            let ghost after_current = string_views(output@);
            if show_forecast && report.daily_forecast.len() > 0 {
                extend_lines(&mut output, &format_daily_forecast(report));
            } else {
                assert(after_current + Seq::<Seq<char>>::empty() =~= after_current);
            }
            let ghost after_daily = string_views(output@);
            if show_hourly && report.hourly_forecast.len() > 0 {
                output.push(owned("Hourly Forecast:"));
                extend_lines(&mut output, &format_hourly_forecast(report));
                assert(string_views(output@) =~= after_daily + (seq!["Hourly Forecast:"@]
                    + packed_lines(hourly_texts(r), 80)));
            } else {
                assert(after_daily + Seq::<Seq<char>>::empty() =~= after_daily);
            }
            assert(string_views(output@) =~= report_lines(r, show_forecast, show_hourly, custom));
        },
    }
    output
}

/// Formats a weather report for the terminal. For an aviation report: the
/// METAR, the TAF when `show_forecast` is set, and the disclaimer, every line
/// wrapped to 80 bytes. Otherwise: the current-weather line (a custom format
/// applies), the daily forecast when `show_forecast` is set, and the hourly
/// forecast when `show_hourly` is set. Lines are joined by newlines.
pub fn format_weather_report(
    report: &WeatherReport,
    show_forecast: bool,
    show_hourly: bool,
    custom_format: Option<&String>,
) -> (out: String)
    ensures
        out@ == join(
            report_lines(
                report@,
                show_forecast,
                show_hourly,
                match custom_format {
                    Some(t) => Some(t@),
                    None => None,
                },
            ),
            "\n"@,
        ),
{
    let lines = report_line_strings(report, show_forecast, show_hourly, custom_format);
    join_strings(&lines, "\n")
}

} // verus!
