//! The weather tools: current conditions and a five-day forecast from
//! OpenWeatherMap. What they decide without numbers stands here: the units
//! offered, the unit names, the compass point of a wind direction and the
//! place name sent; coordinates and the rendering of temperatures are
//! floating-point work, left to the caller.
use vstd::prelude::*;
use crate::framework::{metadata_is, ToolCategory, ToolMetadata, ToolType};
use crate::alpha::{to_upper, uppercase};
use crate::text::{
    byte_len, contains_seq, copy_str, decimal, fitting_prefix_len, has_prefix, is_ws, join, lemma_words_letter,
    lemma_words_space, lowercase, push_decimal, seq_lt, str_contains, to_lower, utf8_len, words,
};
use crate::json::{
    as_list, as_nat, as_text, get, lemma_lookup1, lemma_lookup2, lookup, text_at, text_or, JsonNumber, JsonValue,
};
use crate::render::{
    num_at, num_of, number_at, number_of, nums_view, opt_num_view, pieces_view, text_piece, NumView, Piece, PieceView,
};

verus! {

/// Reads current weather from OpenWeatherMap.
pub struct WeatherTool {
    pub metadata: ToolMetadata,
    /// The OpenWeatherMap key (empty when none is set).
    pub api_key: String,
}

/// Reads a five-day forecast from OpenWeatherMap.
pub struct ForecastTool {
    pub metadata: ToolMetadata,
    /// The OpenWeatherMap key (empty when none is set).
    pub api_key: String,
}

impl WeatherTool {
    /// The tool with the key found (empty for none).
    pub fn new(api_key: String) -> (t: Self)
        ensures
            t.api_key == api_key,
            metadata_is(t.metadata, "weather_current"@, "weather_current"@, ToolType::Weather, ""@, ToolCategory::Utility),
    {
        WeatherTool {
            metadata: ToolMetadata::from_parts("weather_current", "weather_current", ToolType::Weather, "", ToolCategory::Utility),
            api_key,
        }
    }

    /// The tool can be used once a key is set.
    pub fn is_available(&self) -> (b: bool)
        ensures
            b == (self.api_key@.len() > 0),
    {
        !crate::text::is_empty_str(self.api_key.as_str())
    }
}

impl ForecastTool {
    /// The tool with the key found (empty for none).
    pub fn new(api_key: String) -> (t: Self)
        ensures
            t.api_key == api_key,
            metadata_is(t.metadata, "weather_forecast"@, "weather_forecast"@, ToolType::Weather, ""@, ToolCategory::Utility),
    {
        ForecastTool {
            metadata: ToolMetadata::from_parts("weather_forecast", "weather_forecast", ToolType::Weather, "", ToolCategory::Utility),
            api_key,
        }
    }

    /// The tool can be used once a key is set.
    pub fn is_available(&self) -> (b: bool)
        ensures
            b == (self.api_key@.len() > 0),
    {
        !crate::text::is_empty_str(self.api_key.as_str())
    }
}

/// The unit systems offered.
pub open spec fn units_offered(units: Seq<char>) -> bool {
    units == "standard"@ || units == "metric"@ || units == "imperial"@
}

/// Whether `units` is one of `standard`, `metric` and `imperial`.
pub fn units_supported(units: &str) -> (b: bool)
    ensures
        b == units_offered(units@),
{
    crate::text::str_eq(units, "standard") || crate::text::str_eq(units, "metric") || crate::text::str_eq(
        units,
        "imperial",
    )
}

/// What a weather call asks about: a point, or a city.
#[derive(Debug, PartialEq, Eq, Structural)]
pub enum PlaceChoice {
    Coordinates,
    City,
}

/// How the current-weather tool reads its place: the units first, then the
/// ranges of whichever coordinates were given, then a pair of coordinates
/// before a city.
pub open spec fn current_place(
    units: Seq<char>,
    latitude_in_range: bool,
    longitude_in_range: bool,
    has_city: bool,
    has_coordinates: bool,
) -> Result<PlaceChoice, Seq<char>> {
    if !units_offered(units) {
        Err("Invalid units. Must be 'standard', 'metric', or 'imperial'"@)
    } else if !latitude_in_range {
        Err("Latitude must be between -90 and 90"@)
    } else if !longitude_in_range {
        Err("Longitude must be between -180 and 180"@)
    } else if has_coordinates {
        Ok(PlaceChoice::Coordinates)
    } else if has_city {
        Ok(PlaceChoice::City)
    } else {
        Err("Either 'city' or both 'latitude' and 'longitude' must be provided"@)
    }
}

/// How the forecast tool reads its place: the units first, then a pair of
/// coordinates before a city.
pub open spec fn forecast_place(units: Seq<char>, has_city: bool, has_coordinates: bool) -> Result<
    PlaceChoice,
    Seq<char>,
> {
    if !units_offered(units) {
        Err("Invalid units"@)
    } else if has_coordinates {
        Ok(PlaceChoice::Coordinates)
    } else if has_city {
        Ok(PlaceChoice::City)
    } else {
        Err("Either city or lat/lon required"@)
    }
}

/// A place choice or its error, with the error as plain text.
pub open spec fn place_result_is(r: Result<PlaceChoice, String>, s: Result<PlaceChoice, Seq<char>>) -> bool {
    match s {
        Ok(p) => r matches Ok(q) && q == p,
        Err(m) => r matches Err(e) && e@ == m,
    }
}

/// Reads the place of a current-weather call. Whether each coordinate given
/// lies in its range is judged by the caller, coordinates being floats; a
/// coordinate not given is in range.
pub fn current_place_of(
    units: &str,
    latitude_in_range: bool,
    longitude_in_range: bool,
    has_city: bool,
    has_coordinates: bool,
) -> (r: Result<PlaceChoice, String>)
    ensures
        place_result_is(r, current_place(units@, latitude_in_range, longitude_in_range, has_city, has_coordinates)),
{
    if !units_supported(units) {
        Err(copy_str("Invalid units. Must be 'standard', 'metric', or 'imperial'"))
    } else if !latitude_in_range {
        Err(copy_str("Latitude must be between -90 and 90"))
    } else if !longitude_in_range {
        Err(copy_str("Longitude must be between -180 and 180"))
    } else if has_coordinates {
        Ok(PlaceChoice::Coordinates)
    } else if has_city {
        Ok(PlaceChoice::City)
    } else {
        Err(copy_str("Either 'city' or both 'latitude' and 'longitude' must be provided"))
    }
}

/// Reads the place of a forecast call.
pub fn forecast_place_of(units: &str, has_city: bool, has_coordinates: bool) -> (r: Result<PlaceChoice, String>)
    ensures
        place_result_is(r, forecast_place(units@, has_city, has_coordinates)),
{
    if !units_supported(units) {
        Err(copy_str("Invalid units"))
    } else if has_coordinates {
        Ok(PlaceChoice::Coordinates)
    } else if has_city {
        Ok(PlaceChoice::City)
    } else {
        Err(copy_str("Either city or lat/lon required"))
    }
}

/// The temperature unit of a unit system: Celsius, Fahrenheit, or Kelvin
/// for any other.
pub fn temperature_unit(units: &str) -> (r: &'static str)
    ensures
        r@ == if units@ == "metric"@ {
            "C"@
        } else if units@ == "imperial"@ {
            "F"@
        } else {
            "K"@
        },
{
    if crate::text::str_eq(units, "metric") {
        "C"
    } else if crate::text::str_eq(units, "imperial") {
        "F"
    } else {
        "K"
    }
}

/// The wind-speed unit of a unit system: miles per hour for imperial,
/// metres per second for any other.
pub fn wind_unit(units: &str) -> (r: &'static str)
    ensures
        r@ == if units@ == "imperial"@ {
            "mph"@
        } else {
            "m/s"@
        },
{
    if crate::text::str_eq(units, "imperial") {
        "mph"
    } else {
        "m/s"
    }
}

/// The compass point of a direction in degrees, taken modulo 360.
pub open spec fn compass_point(degrees: u64) -> Seq<char> {
    let d = degrees % 360;
    if d <= 22 || d >= 338 {
        "N"@
    } else if d <= 67 {
        "NE"@
    } else if d <= 112 {
        "E"@
    } else if d <= 157 {
        "SE"@
    } else if d <= 202 {
        "S"@
    } else if d <= 247 {
        "SW"@
    } else if d <= 292 {
        "W"@
    } else {
        "NW"@
    }
}

/// The compass point of a wind direction in degrees.
pub fn degrees_to_direction(degrees: u64) -> (r: &'static str)
    ensures
        r@ == compass_point(degrees),
{
    let d = degrees % 360;
    if d <= 22 || d >= 338 {
        "N"
    } else if d <= 67 {
        "NE"
    } else if d <= 112 {
        "E"
    } else if d <= 157 {
        "SE"
    } else if d <= 202 {
        "S"
    } else if d <= 247 {
        "SW"
    } else if d <= 292 {
        "W"
    } else {
        "NW"
    }
}

/// The place sent to OpenWeatherMap: the city, then the state and the
/// country when they are given and not empty, separated by commas.
pub open spec fn place_query(city: Seq<char>, state: Option<Seq<char>>, country: Option<Seq<char>>) -> Seq<char> {
    city + match state {
        Some(s) => if s.len() > 0 {
            ","@ + s
        } else {
            ""@
        },
        None => ""@,
    } + match country {
        Some(c) => if c.len() > 0 {
            ","@ + c
        } else {
            ""@
        },
        None => ""@,
    }
}

/// The place sent to OpenWeatherMap for a city.
pub fn city_query(city: &str, state: Option<&str>, country: Option<&str>) -> (r: String)
    ensures
        r@ == place_query(
            city@,
            match state {
                Some(s) => Some(s@),
                None => None,
            },
            match country {
                Some(c) => Some(c@),
                None => None,
            },
        ),
{
    let mut q = copy_str(city);
    let ghost first = q@;
    proof {
        reveal_strlit("");
        reveal_strlit(",");
    }
    match state {
        Some(s) => if !crate::text::is_empty_str(s) {
            q.append(",");
            q.append(s);
        },
        None => {},
    }
    let ghost second = q@;
    match country {
        Some(c) => if !crate::text::is_empty_str(c) {
            q.append(",");
            q.append(c);
        },
        None => {},
    }
    assert(q@ =~= place_query(
        city@,
        match state {
            Some(s) => Some(s@),
            None => None,
        },
        match country {
            Some(c) => Some(c@),
            None => None,
        },
    ));
    q
}

// ---------------------------------------------------------------------------
// Title case.
// ---------------------------------------------------------------------------

/// A word with its first character upper-cased and the rest lower-cased.
pub open spec fn title_word(w: Seq<char>) -> Seq<char> {
    uppercase(w.take(1)) + if w.len() > 1 {
        lowercase(w.drop_first())
    } else {
        Seq::empty()
    }
}

/// The words of `s` in title case, separated by single spaces.
pub open spec fn titlecase(s: Seq<char>) -> Seq<char> {
    join(words(s).map_values(|w: Seq<char>| title_word(w)), " "@)
}

/// Every word of `s` starts with a character of one byte: slicing off that
/// first byte, as title-casing does, never splits a character.
pub open spec fn words_start_narrow(s: Seq<char>) -> bool {
    forall|i: int|
        0 <= i < s.len() && !is_ws(#[trigger] s[i]) && (i == 0 || is_ws(s[i - 1])) ==> utf8_len(s[i])
            == 1
}

fn title_word_of(w: &Vec<char>) -> (r: String)
    requires
        w@.len() > 0,
    ensures
        r@ == title_word(w@),
{
    let head = crate::text::slice_prefix(w.as_slice(), 1);
    let first = crate::text::string_from_chars(head);
    let mut out = to_upper(first.as_str());
    if w.len() > 1 {
        let mut rest: Vec<char> = Vec::new();
        let mut i: usize = 1;
        while i < w.len()
            invariant
                1 <= i <= w@.len(),
                rest@ == w@.subrange(1, i as int),
            decreases w@.len() - i,
        {
            rest.push(w[i]);
            assert(w@.subrange(1, i as int).push(w@[i as int]) =~= w@.subrange(1, i + 1));
            i = i + 1;
        }
        assert(rest@ =~= w@.drop_first());
        let rs = crate::text::string_from_chars(rest.as_slice());
        out.append(to_lower(rs.as_str()).as_str());
    } else {
        assert(out@ =~= title_word(w@));
    }
    out
}

fn push_word(out: &mut String, any_done: bool, w: &Vec<char>, Ghost(done): Ghost<Seq<Seq<char>>>)
    requires
        w@.len() > 0,
        any_done == (done.len() > 0),
        old(out)@ == join(done.map_values(|x: Seq<char>| title_word(x)), " "@),
    ensures
        final(out)@ == join(done.push(w@).map_values(|x: Seq<char>| title_word(x)), " "@),
{
    let ghost before = done.map_values(|x: Seq<char>| title_word(x));
    let tw = title_word_of(w);
    if any_done {
        out.append(" ");
    }
    out.append(tw.as_str());
    let ghost nd = done.push(w@).map_values(|x: Seq<char>| title_word(x));
    assert(nd =~= before.push(title_word(w@)));
    assert(nd.drop_last() =~= before);
    assert(out@ =~= join(nd, " "@));
}

/// `s` in title case, as the weather tools write conditions: each word's
/// first character upper-cased and the rest lower-cased, the words
/// separated by single spaces.
#[verifier::spinoff_prover]
#[verifier::rlimit(30)]
pub fn to_titlecase(s: &str) -> (r: String)
    requires
        words_start_narrow(s@),
    ensures
        r@ == titlecase(s@),
{
    let cs = crate::text::chars_of(s);
    let mut out = String::new();
    let mut cur: Vec<char> = Vec::new();
    let ghost mut done: Seq<Seq<char>> = Seq::empty();
    let mut any_done = false;
    let mut i: usize = 0;
    proof {
        assert(cs@.take(0) =~= Seq::<char>::empty());
        assert(done.map_values(|x: Seq<char>| title_word(x)) =~= Seq::<Seq<char>>::empty());
    }
    while i < cs.len()
        invariant
            i <= cs@.len(),
            cs@ == s@,
            words(cs@.take(i as int)) == done + if cur@.len() > 0 {
                seq![cur@]
            } else {
                Seq::empty()
            },
            cur@.len() > 0 <==> (i > 0 && !is_ws(cs@[i - 1])),
            any_done == (done.len() > 0),
            out@ == join(done.map_values(|x: Seq<char>| title_word(x)), " "@),
        decreases cs@.len() - i,
    {
        let c = cs[i];
        let ghost t = cs@.take(i + 1);
        assert(t.drop_last() =~= cs@.take(i as int));
        assert(t.last() == c);
        if crate::text::is_whitespace(c) {
            proof {
                lemma_words_space(t);
            }
            if cur.len() > 0 {
                push_word(&mut out, any_done, &cur, Ghost(done));
                proof {
                    done = done.push(cur@);
                }
                any_done = true;
                cur = Vec::new();
            }
            assert(words(t) =~= done + Seq::<Seq<char>>::empty());
        } else {
            proof {
                lemma_words_letter(t, done, cur@);
            }
            cur.push(c);
        }
        i = i + 1;
    }
    assert(cs@.take(cs@.len() as int) =~= cs@);
    if cur.len() > 0 {
        push_word(&mut out, any_done, &cur, Ghost(done));
        proof {
            done = done.push(cur@);
        }
        assert(words(s@) =~= done);
    } else {
        assert(words(s@) =~= done);
    }
    out
}

/// Whether every word of `s` starts with a one-byte character.
pub fn words_start_narrow_exec(s: &str) -> (b: bool)
    ensures
        b == words_start_narrow(s@),
{
    let cs = crate::text::chars_of(s);
    let mut i: usize = 0;
    while i < cs.len()
        invariant
            i <= cs@.len(),
            cs@ == s@,
            forall|j: int|
                0 <= j < i && !is_ws(#[trigger] cs@[j]) && (j == 0 || is_ws(cs@[j - 1])) ==> utf8_len(
                    cs@[j],
                ) == 1,
        decreases cs@.len() - i,
    {
        let starts = !crate::text::is_whitespace(cs[i]) && (i == 0 || crate::text::is_whitespace(cs[i - 1]));
        if starts && crate::text::exec_utf8_len(cs[i]) != 1 {
            return false;
        }
        i = i + 1;
    }
    true
}

// ---------------------------------------------------------------------------
// Current weather.
// ---------------------------------------------------------------------------

/// The conditions of a reply: its `weather` list.
pub open spec fn conditions(d: JsonValue) -> Option<Seq<JsonValue>> {
    as_list(get(d, "weather"@))
}

/// The description of the first condition, or `unknown`.
pub open spec fn description_of(d: JsonValue) -> Seq<char> {
    match conditions(d) {
        Some(ws) => if ws.len() > 0 {
            text_or(ws[0], seq!["description"], "unknown"@)
        } else {
            "unknown"@
        },
        None => "unknown"@,
    }
}

/// The icon of the first condition, or nothing.
pub open spec fn icon_of(d: JsonValue) -> Seq<char> {
    match conditions(d) {
        Some(ws) => if ws.len() > 0 {
            text_or(ws[0], seq!["icon"], ""@)
        } else {
            ""@
        },
        None => ""@,
    }
}

/// The wind speed's unit, and the compass point when the direction is given.
pub open spec fn wind_tail(d: JsonValue, units: Seq<char>) -> Seq<char> {
    " "@ + (if units == "imperial"@ {
        "mph"@
    } else {
        "m/s"@
    }) + match as_nat(lookup(d, seq!["wind", "deg"])) {
        Some(deg) => " ("@ + compass_point(deg) + ")"@,
        None => ""@,
    }
}

/// The temperature unit of a unit system.
pub open spec fn temp_unit(units: Seq<char>) -> Seq<char> {
    if units == "metric"@ {
        "C"@
    } else if units == "imperial"@ {
        "F"@
    } else {
        "K"@
    }
}

/// The humidity and pressure line's text, up to the wind speed.
pub open spec fn conditions_text(d: JsonValue, main: JsonValue, units: Seq<char>) -> Seq<char> {
    "°"@ + temp_unit(units) + ")\n"@ + "**Conditions:** "@ + titlecase(description_of(d)) + "\n"@
        + "**Humidity:** "@ + decimal(
        match as_nat(get(main, "humidity"@)) {
            Some(h) => h as nat,
            None => 0,
        },
    ) + "% | **Pressure:** "@ + decimal(
        match as_nat(get(main, "pressure"@)) {
            Some(p) => p as nat,
            None => 0,
        },
    ) + " hPa | **Wind:** "@
}

/// The first pieces of a current-weather answer whose temperature is
/// `temp`: place, temperatures, conditions, humidity, pressure and wind.
pub open spec fn weather_head(d: JsonValue, main: JsonValue, temp: NumView, units: Seq<char>) -> Seq<PieceView> {
    seq![
        PieceView::Text(
            "🌡️ **Current Weather in "@ + text_or(d, seq!["name"], "Unknown Location"@) + "** (Lat: "@,
        ),
        PieceView::Number(num_of(lookup(d, seq!["coord", "lat"])), 4),
        PieceView::Text(", Lon: "@),
        PieceView::Number(num_of(lookup(d, seq!["coord", "lon"])), 4),
        PieceView::Text(")\n\n**Temperature:** "@),
        PieceView::Number(Some(temp), 1),
        PieceView::Text("°"@ + temp_unit(units) + " (Feels like "@),
        PieceView::Number(
            match num_at(main, "feels_like"@) {
                Some(f) => Some(f),
                None => Some(temp),
            },
            1,
        ),
        PieceView::Text(conditions_text(d, main, units)),
        PieceView::Number(num_of(lookup(d, seq!["wind", "speed"])), 1),
        PieceView::Text(wind_tail(d, units) + "\n"@),
    ]
}

/// The last pieces of a current-weather answer: visibility, cloudiness and
/// the icon, each when the reply gives it.
pub open spec fn weather_extras(d: JsonValue) -> Seq<PieceView> {
    (match as_nat(get(d, "visibility"@)) {
        Some(v) => seq![
            PieceView::Text("**Visibility:** "@),
            PieceView::Thousandths(v),
            PieceView::Text(" km\n"@),
        ],
        None => Seq::empty(),
    }) + (match as_nat(lookup(d, seq!["clouds", "all"])) {
        Some(c) => seq![PieceView::Text("**Cloudiness:** "@ + decimal(c as nat) + "%\n"@)],
        None => Seq::empty(),
    }) + if icon_of(d).len() > 0 {
        seq![
            PieceView::Text(
                "\n![Weather Icon](https://openweathermap.org/img/wn/"@ + icon_of(d) + "@2x.png)\n"@,
            ),
        ]
    } else {
        Seq::empty()
    }
}

/// The pieces of a current-weather answer whose temperature is `temp`.
pub open spec fn weather_body(d: JsonValue, main: JsonValue, temp: NumView, units: Seq<char>) -> Seq<PieceView> {
    weather_head(d, main, temp, units) + weather_extras(d)
}

/// The current-weather answer for a reply, or what is missing from it.
pub open spec fn weather_answer(d: JsonValue, units: Seq<char>) -> Result<Seq<PieceView>, Seq<char>> {
    match get(d, "main"@) {
        None => Err("Missing 'main' field in weather response"@),
        Some(main) => match num_at(main, "temp"@) {
            None => Err("Missing temperature in weather response"@),
            Some(temp) => match conditions(d) {
                None => Err("Missing weather conditions in response"@),
                Some(ws) => if ws.len() == 0 {
                    Err("Empty weather conditions array"@)
                } else {
                    Ok(weather_body(d, main, temp, units))
                },
            },
        },
    }
}

fn conditions_line(d: &JsonValue, main: &JsonValue, ws: &Vec<JsonValue>, units: &str) -> (r: String)
    requires
        conditions(*d) == Some(ws@),
        ws@.len() > 0,
        words_start_narrow(description_of(*d)),
    ensures
        r@ == conditions_text(*d, *main, units@),
{
    let description = ws[0].text1_or("description", "unknown");
    let mut t = copy_str("°");
    t.append(temperature_unit(units));
    t.append(")\n");
    t.append("**Conditions:** ");
    t.append(to_titlecase(description.as_str()).as_str());
    t.append("\n");
    t.append("**Humidity:** ");
    push_decimal(&mut t, match main.u64_1("humidity") {
        Some(h) => h,
        None => 0,
    });
    t.append("% | **Pressure:** ");
    push_decimal(&mut t, match main.u64_1("pressure") {
        Some(p) => p,
        None => 0,
    });
    t.append(" hPa | **Wind:** ");
    proof {
        lemma_lookup1(*main, "humidity");
        lemma_lookup1(*main, "pressure");
    }
    t
}

fn wind_line(d: &JsonValue, units: &str) -> (r: String)
    ensures
        r@ == wind_tail(*d, units@) + "\n"@,
{
    let mut t = copy_str(" ");
    t.append(wind_unit(units));
    proof {
        lemma_lookup2(*d, "wind", "deg");
        reveal_strlit("");
    }
    match d.u64_2("wind", "deg") {
        Some(deg) => {
            t.append(" (");
            t.append(degrees_to_direction(deg));
            t.append(")");
        },
        None => {},
    }
    t.append("\n");
    t
}

fn weather_head_pieces(d: &JsonValue, main: &JsonValue, temp: JsonNumber, ws: &Vec<JsonValue>, units: &str) -> (r: Vec<Piece>)
    requires
        conditions(*d) == Some(ws@),
        ws@.len() > 0,
        words_start_narrow(description_of(*d)),
    ensures
        pieces_view(r@) == weather_head(*d, *main, crate::render::num_view(temp), units@),
{
    let ghost tv = crate::render::num_view(temp);
    let mut out: Vec<Piece> = Vec::new();
    let mut t1 = copy_str("🌡️ **Current Weather in ");
    t1.append(d.text1_or("name", "Unknown Location").as_str());
    t1.append("** (Lat: ");
    out.push(text_piece(t1));
    out.push(Piece::Number(number_of(d.at2("coord", "lat")), 4));
    out.push(text_piece(copy_str(", Lon: ")));
    out.push(Piece::Number(number_of(d.at2("coord", "lon")), 4));
    out.push(text_piece(copy_str(")\n\n**Temperature:** ")));
    let feels = match number_at(main, "feels_like") {
        Some(f) => f,
        None => crate::render::copy_number(&temp),
    };
    out.push(Piece::Number(Some(temp), 1));
    let mut t2 = copy_str("°");
    t2.append(temperature_unit(units));
    t2.append(" (Feels like ");
    out.push(text_piece(t2));
    out.push(Piece::Number(Some(feels), 1));
    out.push(text_piece(conditions_line(d, main, ws, units)));
    out.push(Piece::Number(number_of(d.at2("wind", "speed")), 1));
    out.push(text_piece(wind_line(d, units)));
    proof {
        lemma_lookup2(*d, "coord", "lat");
        lemma_lookup2(*d, "coord", "lon");
        lemma_lookup2(*d, "wind", "speed");
    }
    assert(pieces_view(out@) =~= weather_head(*d, *main, tv, units@));
    out
}

fn push_weather_extras(out: &mut Vec<Piece>, d: &JsonValue, ws: &Vec<JsonValue>)
    requires
        conditions(*d) == Some(ws@),
        ws@.len() > 0,
    ensures
        pieces_view(final(out)@) == pieces_view(old(out)@) + weather_extras(*d),
{
    let ghost start = pieces_view(out@);
    proof {
        lemma_lookup1(*d, "visibility");
        lemma_lookup2(*d, "clouds", "all");
    }
    let ghost vis = match as_nat(get(*d, "visibility"@)) {
        Some(v) => seq![
            PieceView::Text("**Visibility:** "@),
            PieceView::Thousandths(v),
            PieceView::Text(" km\n"@),
        ],
        None => Seq::<PieceView>::empty(),
    };
    match d.u64_1("visibility") {
        Some(v) => {
            out.push(text_piece(copy_str("**Visibility:** ")));
            out.push(Piece::Thousandths(v));
            out.push(text_piece(copy_str(" km\n")));
        },
        None => {},
    }
    assert(pieces_view(out@) =~= start + vis);
    let ghost clouds = match as_nat(lookup(*d, seq!["clouds", "all"])) {
        Some(c) => seq![PieceView::Text("**Cloudiness:** "@ + decimal(c as nat) + "%\n"@)],
        None => Seq::<PieceView>::empty(),
    };
    match d.u64_2("clouds", "all") {
        Some(c) => {
            let mut t = copy_str("**Cloudiness:** ");
            push_decimal(&mut t, c);
            t.append("%\n");
            out.push(text_piece(t));
        },
        None => {},
    }
    assert(pieces_view(out@) =~= start + vis + clouds);
    let icon = ws[0].text1_or("icon", "");
    let ghost icon_part = if icon@.len() > 0 {
        seq![
            PieceView::Text("\n![Weather Icon](https://openweathermap.org/img/wn/"@ + icon@ + "@2x.png)\n"@),
        ]
    } else {
        Seq::<PieceView>::empty()
    };
    if !crate::text::is_empty_str(icon.as_str()) {
        let mut t = copy_str("\n![Weather Icon](https://openweathermap.org/img/wn/");
        t.append(icon.as_str());
        t.append("@2x.png)\n");
        out.push(text_piece(t));
    }
    assert(pieces_view(out@) =~= start + vis + clouds + icon_part);
    assert(vis + clouds + icon_part =~= weather_extras(*d));
}

impl WeatherTool {
    /// Renders a current-weather reply in `units`, as pieces: text, and the
    /// numbers the caller writes. The description's words must start with
    /// one-byte characters, as title-casing them slices off their first byte.
    pub fn format_weather_response(d: &JsonValue, units: &str) -> (r: Result<Vec<Piece>, String>)
        requires
            words_start_narrow(description_of(*d)),
        ensures
            match weather_answer(*d, units@) {
                Ok(ps) => r matches Ok(v) && pieces_view(v@) == ps,
                Err(m) => r matches Err(e) && e@ == m,
            },
    {
        let main = match d.get("main") {
            Some(m) => m,
            None => {
                return Err(copy_str("Missing 'main' field in weather response"));
            },
        };
        let temp = match number_at(main, "temp") {
            Some(t) => t,
            None => {
                return Err(copy_str("Missing temperature in weather response"));
            },
        };
        let ws = match (match d.get("weather") {
            Some(x) => x.as_array(),
            None => None,
        }) {
            Some(ws) => ws,
            None => {
                return Err(copy_str("Missing weather conditions in response"));
            },
        };
        if ws.len() == 0 {
            return Err(copy_str("Empty weather conditions array"));
        }
        let ghost tv = crate::render::num_view(temp);
        let mut out = weather_head_pieces(d, main, temp, ws, units);
        push_weather_extras(&mut out, d, ws);
        assert(pieces_view(out@) =~= weather_body(*d, *main, tv, units@));
        Ok(out)
    }
}

// ---------------------------------------------------------------------------
// Forecast.
// ---------------------------------------------------------------------------

/// The characters of the bytes `a..b` of `t` (`&t[a..b]`), read up to the
/// character boundaries at or before them.
pub open spec fn byte_range(t: Seq<char>, a: nat, b: nat) -> Seq<char> {
    t.subrange(fitting_prefix_len(t, a) as int, fitting_prefix_len(t, b) as int)
}

/// Byte `n` of `t` is a character boundary within it, so `&t[..n]` and
/// `&t[n..]` do not panic.
pub open spec fn byte_boundary(t: Seq<char>, n: nat) -> bool {
    byte_len(t.take(fitting_prefix_len(t, n) as int)) == n
}

/// The first condition of a forecast entry (`item["weather"][0]`).
pub open spec fn first_condition(item: JsonValue) -> Option<JsonValue> {
    match as_list(get(item, "weather"@)) {
        Some(l) => if l.len() > 0 {
            Some(l[0])
        } else {
            None
        },
        None => None,
    }
}

/// The text at `key` of an entry's first condition, or `default`.
pub open spec fn condition_text(item: JsonValue, key: &str, default: Seq<char>) -> Seq<char> {
    match first_condition(item) {
        Some(c) => text_or(c, seq![key], default),
        None => default,
    }
}

/// The time stamp of a forecast entry.
pub open spec fn stamp(item: JsonValue) -> Option<Seq<char>> {
    text_at(item, seq!["dt_txt"])
}

/// The icon markdown of a forecast line, or nothing.
pub open spec fn icon_markdown(icon: Seq<char>) -> Seq<char> {
    if icon.len() > 0 {
        " ![Icon](https://openweathermap.org/img/wn/"@ + icon + "@2x.png)"@
    } else {
        ""@
    }
}

/// The line of one three-hour entry of the date asked for.
pub open spec fn slot_line(item: JsonValue, t: Seq<char>, u: Seq<char>) -> Seq<PieceView> {
    seq![
        PieceView::Text("- `"@ + byte_range(t, 11, 16) + "`: "@),
        PieceView::Number(num_of(lookup(item, seq!["main", "temp"])), 1),
        PieceView::Text(
            "°"@ + u + ", "@ + titlecase(condition_text(item, "description", "unknown"@)) + ", ☔ "@,
        ),
        PieceView::Percent(num_of(get(item, "pop"@))),
        PieceView::Text("%"@ + icon_markdown(condition_text(item, "icon", ""@)) + "\n"@),
    ]
}

/// The entry's stamp starts with the date asked for.
pub open spec fn on_date(item: JsonValue, date: Seq<char>) -> bool {
    match stamp(item) {
        Some(t) => has_prefix(t, date),
        None => false,
    }
}

/// The lines of the entries of the date asked for, in order.
pub open spec fn slot_lines(items: Seq<JsonValue>, date: Seq<char>, u: Seq<char>) -> Seq<PieceView>
    decreases items.len(),
{
    if items.len() == 0 {
        Seq::empty()
    } else {
        slot_lines(items.drop_last(), date, u) + if on_date(items.last(), date) {
            slot_line(items.last(), stamp(items.last())->0, u)
        } else {
            Seq::empty()
        }
    }
}

/// Title-casing and slicing the entries of the date asked for cannot panic.
pub open spec fn slots_renderable(items: Seq<JsonValue>, date: Seq<char>) -> bool {
    forall|i: int|
        0 <= i < items.len() && on_date(#[trigger] items[i], date) ==> {
            &&& byte_boundary(stamp(items[i])->0, 11)
            &&& byte_boundary(stamp(items[i])->0, 16)
            &&& fitting_prefix_len(stamp(items[i])->0, 11) <= fitting_prefix_len(stamp(items[i])->0, 16)
            &&& words_start_narrow(condition_text(items[i], "description", "unknown"@))
        }
}

fn condition_text_of(item: &JsonValue, key: &str, default: &str) -> (r: String)
    ensures
        r@ == condition_text(*item, key, default@),
{
    match item.get("weather") {
        Some(w) => match w.as_array() {
            Some(l) => if l.len() > 0 {
                l[0].text1_or(key, default)
            } else {
                copy_str(default)
            },
            None => copy_str(default),
        },
        None => copy_str(default),
    }
}

fn icon_markdown_of(icon: &str) -> (r: String)
    ensures
        r@ == icon_markdown(icon@),
{
    if crate::text::is_empty_str(icon) {
        proof {
            reveal_strlit("");
        }
        String::new()
    } else {
        let mut t = copy_str(" ![Icon](https://openweathermap.org/img/wn/");
        t.append(icon);
        t.append("@2x.png)");
        t
    }
}

fn byte_slice(t: &str, a: usize, b: usize) -> (r: String)
    requires
        fitting_prefix_len(t@, a as nat) <= fitting_prefix_len(t@, b as nat),
    ensures
        r@ == byte_range(t@, a as nat, b as nat),
{
    let cs = crate::text::chars_of(t);
    let (ka, _) = crate::text::fitting_prefix(cs.as_slice(), a);
    let (kb, _) = crate::text::fitting_prefix(cs.as_slice(), b);
    let piece = vstd::slice::slice_subrange(cs.as_slice(), ka, kb);
    crate::text::string_from_chars(piece)
}

fn slot_texts(item: &JsonValue, t: &str, units: &str) -> (r: (String, String, String))
    requires
        fitting_prefix_len(t@, 11) <= fitting_prefix_len(t@, 16),
        words_start_narrow(condition_text(*item, "description", "unknown"@)),
    ensures
        r.0@ == "- `"@ + byte_range(t@, 11, 16) + "`: "@,
        r.1@ == "°"@ + temp_unit(units@) + ", "@ + titlecase(condition_text(*item, "description", "unknown"@))
            + ", ☔ "@,
        r.2@ == "%"@ + icon_markdown(condition_text(*item, "icon", ""@)) + "\n"@,
{
    let mut a = copy_str("- `");
    a.append(byte_slice(t, 11, 16).as_str());
    a.append("`: ");
    let mut b = copy_str("°");
    b.append(temperature_unit(units));
    b.append(", ");
    b.append(to_titlecase(condition_text_of(item, "description", "unknown").as_str()).as_str());
    b.append(", ☔ ");
    let mut c = copy_str("%");
    c.append(icon_markdown_of(condition_text_of(item, "icon", "").as_str()).as_str());
    c.append("\n");
    (a, b, c)
}

fn push_slot_line(out: &mut Vec<Piece>, item: &JsonValue, t: &str, units: &str)
    requires
        fitting_prefix_len(t@, 11) <= fitting_prefix_len(t@, 16),
        words_start_narrow(condition_text(*item, "description", "unknown"@)),
    ensures
        pieces_view(final(out)@) == pieces_view(old(out)@) + slot_line(*item, t@, temp_unit(units@)),
{
    let ghost start = pieces_view(out@);
    let (a, b, c) = slot_texts(item, t, units);
    let ghost (va, vb, vc) = (a@, b@, c@);
    proof {
        lemma_lookup2(*item, "main", "temp");
    }
    let temp = number_of(item.at2("main", "temp"));
    let pop = number_of(item.get("pop"));
    let ghost (tv, pv) = (crate::render::opt_num_view(temp), crate::render::opt_num_view(pop));
    out.push(text_piece(a));
    out.push(Piece::Number(temp, 1));
    out.push(text_piece(b));
    out.push(Piece::Percent(pop));
    out.push(text_piece(c));
    assert(pieces_view(out@) =~= start + seq![
        PieceView::Text(va),
        PieceView::Number(tv, 1),
        PieceView::Text(vb),
        PieceView::Percent(pv),
        PieceView::Text(vc),
    ]);
}

/// The lines of the entries of `date`, and whether there was any.
fn push_slot_lines(out: &mut Vec<Piece>, items: &Vec<JsonValue>, date: &str, units: &str) -> (found: bool)
    requires
        slots_renderable(items@, date@),
    ensures
        pieces_view(final(out)@) == pieces_view(old(out)@) + slot_lines(items@, date@, temp_unit(units@)),
        found == exists|i: int| 0 <= i < items@.len() && on_date(#[trigger] items@[i], date@),
{
    let ghost start = pieces_view(out@);
    let ghost u = temp_unit(units@);
    let mut found = false;
    let mut i: usize = 0;
    assert(items@.take(0) =~= Seq::<JsonValue>::empty());
    while i < items.len()
        invariant
            i <= items@.len(),
            slots_renderable(items@, date@),
            u == temp_unit(units@),
            pieces_view(out@) == start + slot_lines(items@.take(i as int), date@, u),
            found == exists|j: int| 0 <= j < i && on_date(#[trigger] items@[j], date@),
        decreases items@.len() - i,
    {
        assert(items@.take(i + 1).drop_last() =~= items@.take(i as int));
        assert(items@.take(i + 1).last() == items@[i as int]);
        let ghost before = pieces_view(out@);
        proof {
            lemma_lookup1(items@[i as int], "dt_txt");
        }
        match items[i].text1("dt_txt") {
            Some(t) => if crate::text::starts_with(t, date) {
                assert(on_date(items@[i as int], date@));
                push_slot_line(out, &items[i], t, units);
                found = true;
            } else {
                assert(!on_date(items@[i as int], date@));
                assert(pieces_view(out@) =~= before + Seq::<PieceView>::empty());
            },
            None => {
                assert(!on_date(items@[i as int], date@));
                assert(pieces_view(out@) =~= before + Seq::<PieceView>::empty());
            },
        }
        assert(pieces_view(out@) =~= start + slot_lines(items@.take(i + 1), date@, u));
        i = i + 1;
    }
    assert(items@.take(items@.len() as int) =~= items@);
    found
}

/// The date of an entry: the first ten bytes of its stamp.
pub open spec fn entry_date(item: JsonValue) -> Option<Seq<char>> {
    match stamp(item) {
        Some(t) => Some(t.take(fitting_prefix_len(t, 10) as int)),
        None => None,
    }
}

/// `x` put into the ordered dates `ds`, unless it is there already.
pub open spec fn insert_date(ds: Seq<Seq<char>>, x: Seq<char>) -> Seq<Seq<char>>
    decreases ds.len(),
{
    if ds.len() == 0 {
        seq![x]
    } else if ds[0] == x {
        ds
    } else if seq_lt(x, ds[0]) {
        seq![x] + ds
    } else {
        seq![ds[0]] + insert_date(ds.drop_first(), x)
    }
}

/// The dates of the entries, each once, in ascending order.
pub open spec fn forecast_dates(items: Seq<JsonValue>) -> Seq<Seq<char>>
    decreases items.len(),
{
    if items.len() == 0 {
        Seq::empty()
    } else {
        let ds = forecast_dates(items.drop_last());
        match entry_date(items.last()) {
            Some(x) => insert_date(ds, x),
            None => ds,
        }
    }
}

proof fn lemma_insert_at(ds: Seq<Seq<char>>, x: Seq<char>, k: int)
    requires
        0 <= k <= ds.len(),
        forall|j: int| 0 <= j < k ==> (#[trigger] ds[j]) != x && !seq_lt(x, ds[j]),
        k < ds.len() ==> (ds[k] == x || seq_lt(x, ds[k])),
    ensures
        insert_date(ds, x) == if k < ds.len() && ds[k] == x {
            ds
        } else {
            ds.insert(k, x)
        },
    decreases k,
{
    if k == 0 {
        if ds.len() > 0 && ds[0] != x {
            assert(seq![x] + ds =~= ds.insert(0, x));
        } else if ds.len() == 0 {
            assert(seq![x] =~= ds.insert(0, x));
        }
    } else {
        let t = ds.drop_first();
        assert forall|j: int| 0 <= j < k - 1 implies (#[trigger] t[j]) != x && !seq_lt(x, t[j]) by {
            assert(t[j] == ds[j + 1]);
        }
        if k < ds.len() {
            assert(t[k - 1] == ds[k]);
        }
        lemma_insert_at(t, x, k - 1);
        assert(ds[0] != x && !seq_lt(x, ds[0]));
        if k < ds.len() && ds[k] == x {
            assert(seq![ds[0]] + t =~= ds);
        } else {
            assert(seq![ds[0]] + t.insert(k - 1, x) =~= ds.insert(k, x));
        }
    }
}

/// The string views of strings.
pub open spec fn views(v: Seq<String>) -> Seq<Seq<char>> {
    v.map_values(|s: String| s@)
}

fn insert_date_exec(ds: &mut Vec<String>, x: String)
    ensures
        views(final(ds)@) == insert_date(views(old(ds)@), x@),
{
    let ghost v0 = views(ds@);
    let mut k: usize = 0;
    while k < ds.len()
        invariant
            k <= ds@.len(),
            v0 == views(ds@),
            forall|j: int| 0 <= j < k ==> (#[trigger] v0[j]) != x@ && !seq_lt(x@, v0[j]),
        ensures
            k <= ds@.len(),
            v0 == views(ds@),
            forall|j: int| 0 <= j < k ==> (#[trigger] v0[j]) != x@ && !seq_lt(x@, v0[j]),
            k < ds@.len() ==> (v0[k as int] == x@ || seq_lt(x@, v0[k as int])),
        decreases ds@.len() - k,
    {
        if crate::text::str_eq(ds[k].as_str(), x.as_str()) || crate::text::str_lt(x.as_str(), ds[k].as_str()) {
            break;
        }
        k = k + 1;
    }
    proof {
        lemma_insert_at(v0, x@, k as int);
    }
    if k < ds.len() && crate::text::str_eq(ds[k].as_str(), x.as_str()) {
        return;
    }
    let ghost xv = x@;
    ds.insert(k, x);
    assert(views(ds@) =~= v0.insert(k as int, xv));
}

fn entry_date_of(item: &JsonValue) -> (r: Option<String>)
    ensures
        match r {
            Some(x) => entry_date(*item) == Some(x@),
            None => entry_date(*item) is None,
        },
{
    proof {
        lemma_lookup1(*item, "dt_txt");
    }
    match item.text1("dt_txt") {
        Some(t) => {
            let cs = crate::text::chars_of(t);
            let (k, _) = crate::text::fitting_prefix(cs.as_slice(), 10);
            Some(crate::text::string_from_chars(crate::text::slice_prefix(cs.as_slice(), k)))
        },
        None => None,
    }
}

fn forecast_dates_of(items: &Vec<JsonValue>) -> (r: Vec<String>)
    ensures
        views(r@) == forecast_dates(items@),
{
    let mut ds: Vec<String> = Vec::new();
    let mut i: usize = 0;
    assert(items@.take(0) =~= Seq::<JsonValue>::empty());
    assert(views(ds@) =~= Seq::<Seq<char>>::empty());
    while i < items.len()
        invariant
            i <= items@.len(),
            views(ds@) == forecast_dates(items@.take(i as int)),
        decreases items@.len() - i,
    {
        assert(items@.take(i + 1).drop_last() =~= items@.take(i as int));
        assert(items@.take(i + 1).last() == items@[i as int]);
        match entry_date_of(&items[i]) {
            Some(x) => insert_date_exec(&mut ds, x),
            None => {},
        }
        i = i + 1;
    }
    assert(items@.take(items@.len() as int) =~= items@);
    ds
}

/// The entries of `date`, in order.
pub open spec fn dated(items: Seq<JsonValue>, date: Seq<char>) -> Seq<JsonValue>
    decreases items.len(),
{
    if items.len() == 0 {
        Seq::empty()
    } else {
        dated(items.drop_last(), date) + if entry_date(items.last()) == Some(date) {
            seq![items.last()]
        } else {
            Seq::empty()
        }
    }
}

/// The numbers at `path` of the entries that have one, in order.
pub open spec fn nums_at(items: Seq<JsonValue>, path: Seq<&str>) -> Seq<NumView>
    decreases items.len(),
{
    if items.len() == 0 {
        Seq::empty()
    } else {
        nums_at(items.drop_last(), path) + match num_of(lookup(items.last(), path)) {
            Some(n) => seq![n],
            None => Seq::empty(),
        }
    }
}

/// The description of an entry's first condition, when it is text.
pub open spec fn condition_description(item: JsonValue) -> Option<Seq<char>> {
    match first_condition(item) {
        Some(c) => text_at(c, seq!["description"]),
        None => None,
    }
}

/// The descriptions of the entries, each once, in the order first seen.
pub open spec fn distinct_descriptions(items: Seq<JsonValue>) -> Seq<Seq<char>>
    decreases items.len(),
{
    if items.len() == 0 {
        Seq::empty()
    } else {
        let p = distinct_descriptions(items.drop_last());
        match condition_description(items.last()) {
            Some(w) => if p.contains(w) {
                p
            } else {
                p.push(w)
            },
            None => p,
        }
    }
}

/// The first two distinct descriptions, joined by `, `.
pub open spec fn two_descriptions(items: Seq<JsonValue>) -> Seq<char> {
    let dd = distinct_descriptions(items);
    join(
        dd.take(
            if dd.len() < 2 {
                dd.len() as int
            } else {
                2
            },
        ),
        ", "@,
    )
}

/// The entry's stamp is at noon.
pub open spec fn is_noon(item: JsonValue) -> bool {
    match stamp(item) {
        Some(t) => contains_seq(t, "12:00:00"@),
        None => false,
    }
}

/// The icon of the first noon entry, if there is one.
pub open spec fn noon_icon(items: Seq<JsonValue>) -> Option<Seq<char>>
    decreases items.len(),
{
    if items.len() == 0 {
        None
    } else {
        match noon_icon(items.drop_last()) {
            Some(i) => Some(i),
            None => if is_noon(items.last()) {
                Some(condition_text(items.last(), "icon", ""@))
            } else {
                None
            },
        }
    }
}

/// The icon of a day: the noon entry's, or else the first entry's.
pub open spec fn day_icon(items: Seq<JsonValue>) -> Seq<char> {
    let first = if items.len() > 0 {
        condition_text(items[0], "icon", ""@)
    } else {
        ""@
    };
    match noon_icon(items) {
        Some(i) => if i.len() > 0 {
            i
        } else {
            first
        },
        None => first,
    }
}

proof fn lemma_dated_step(items: Seq<JsonValue>, date: Seq<char>, i: int)
    requires
        0 <= i < items.len(),
    ensures
        dated(items.take(i + 1), date) == dated(items.take(i), date) + if entry_date(items[i]) == Some(date) {
            seq![items[i]]
        } else {
            Seq::empty()
        },
{
    assert(items.take(i + 1).drop_last() =~= items.take(i));
    assert(items.take(i + 1).last() == items[i]);
}

fn same_date(item: &JsonValue, date: &str) -> (b: bool)
    ensures
        b == (entry_date(*item) == Some(date@)),
{
    match entry_date_of(item) {
        Some(x) => crate::text::str_eq(x.as_str(), date),
        None => false,
    }
}

fn dated_nums(items: &Vec<JsonValue>, date: &str, path: &[&str]) -> (r: Vec<JsonNumber>)
    ensures
        nums_view(r@) == nums_at(dated(items@, date@), path@),
{
    let mut out: Vec<JsonNumber> = Vec::new();
    let mut i: usize = 0;
    assert(items@.take(0) =~= Seq::<JsonValue>::empty());
    assert(nums_view(out@) =~= Seq::<NumView>::empty());
    while i < items.len()
        invariant
            i <= items@.len(),
            nums_view(out@) == nums_at(dated(items@.take(i as int), date@), path@),
        decreases items@.len() - i,
    {
        proof {
            lemma_dated_step(items@, date@, i as int);
        }
        let ghost before = dated(items@.take(i as int), date@);
        if same_date(&items[i], date) {
            let ghost after = before.push(items@[i as int]);
            assert(after.drop_last() =~= before);
            let ghost nb = nums_view(out@);
            match number_of(items[i].at(path)) {
                Some(n) => {
                    out.push(n);
                    assert(nums_view(out@) =~= nb + seq![crate::render::num_view(n)]);
                },
                None => {
                    assert(nums_view(out@) =~= nb + Seq::<NumView>::empty());
                },
            }
            assert(dated(items@.take(i + 1), date@) =~= after);
        } else {
            assert(dated(items@.take(i + 1), date@) =~= before);
        }
        i = i + 1;
    }
    assert(items@.take(items@.len() as int) =~= items@);
    out
}

fn condition_description_of(item: &JsonValue) -> (r: Option<String>)
    ensures
        match r {
            Some(x) => condition_description(*item) == Some(x@),
            None => condition_description(*item) is None,
        },
{
    match item.get("weather") {
        Some(w) => match w.as_array() {
            Some(l) => if l.len() > 0 {
                proof {
                    lemma_lookup1(l@[0], "description");
                }
                match l[0].text1("description") {
                    Some(t) => Some(copy_str(t)),
                    None => None,
                }
            } else {
                None
            },
            None => None,
        },
        None => None,
    }
}

fn contains_string(v: &Vec<String>, w: &str) -> (b: bool)
    ensures
        b == views(v@).contains(w@),
{
    let mut i: usize = 0;
    while i < v.len()
        invariant
            i <= v@.len(),
            forall|j: int| 0 <= j < i ==> (#[trigger] views(v@)[j]) != w@,
        decreases v@.len() - i,
    {
        if crate::text::str_eq(v[i].as_str(), w) {
            assert(views(v@)[i as int] == w@);
            return true;
        }
        i = i + 1;
    }
    false
}

fn dated_descriptions(items: &Vec<JsonValue>, date: &str) -> (r: Vec<String>)
    ensures
        views(r@) == distinct_descriptions(dated(items@, date@)),
{
    let mut out: Vec<String> = Vec::new();
    let mut i: usize = 0;
    assert(items@.take(0) =~= Seq::<JsonValue>::empty());
    assert(views(out@) =~= Seq::<Seq<char>>::empty());
    while i < items.len()
        invariant
            i <= items@.len(),
            views(out@) == distinct_descriptions(dated(items@.take(i as int), date@)),
        decreases items@.len() - i,
    {
        proof {
            lemma_dated_step(items@, date@, i as int);
        }
        let ghost before = dated(items@.take(i as int), date@);
        if same_date(&items[i], date) {
            let ghost after = before.push(items@[i as int]);
            assert(after.drop_last() =~= before);
            match condition_description_of(&items[i]) {
                Some(w) => {
                    if !contains_string(&out, w.as_str()) {
                        let ghost nb = views(out@);
                        let ghost wv = w@;
                        out.push(w);
                        assert(views(out@) =~= nb.push(wv));
                    }
                },
                None => {},
            }
            assert(dated(items@.take(i + 1), date@) =~= after);
        } else {
            assert(dated(items@.take(i + 1), date@) =~= before);
        }
        i = i + 1;
    }
    assert(items@.take(items@.len() as int) =~= items@);
    out
}

fn dated_noon_icon(items: &Vec<JsonValue>, date: &str) -> (r: Option<String>)
    ensures
        match r {
            Some(x) => noon_icon(dated(items@, date@)) == Some(x@),
            None => noon_icon(dated(items@, date@)) is None,
        },
{
    let mut out: Option<String> = None;
    let mut i: usize = 0;
    assert(items@.take(0) =~= Seq::<JsonValue>::empty());
    while i < items.len()
        invariant
            i <= items@.len(),
            match out {
                Some(x) => noon_icon(dated(items@.take(i as int), date@)) == Some(x@),
                None => noon_icon(dated(items@.take(i as int), date@)) is None,
            },
        decreases items@.len() - i,
    {
        proof {
            lemma_dated_step(items@, date@, i as int);
            lemma_lookup1(items@[i as int], "dt_txt");
        }
        let ghost before = dated(items@.take(i as int), date@);
        if same_date(&items[i], date) {
            let ghost after = before.push(items@[i as int]);
            assert(after.drop_last() =~= before);
            if out.is_none() {
                let noon = match items[i].text1("dt_txt") {
                    Some(t) => crate::text::str_contains(t, "12:00:00"),
                    None => false,
                };
                if noon {
                    out = Some(condition_text_of(&items[i], "icon", ""));
                }
            }
            assert(dated(items@.take(i + 1), date@) =~= after);
        } else {
            assert(dated(items@.take(i + 1), date@) =~= before);
        }
        i = i + 1;
    }
    assert(items@.take(items@.len() as int) =~= items@);
    out
}

fn dated_first_icon(items: &Vec<JsonValue>, date: &str) -> (r: Option<String>)
    ensures
        match r {
            Some(x) => dated(items@, date@).len() > 0 && x@ == condition_text(dated(items@, date@)[0], "icon", ""@),
            None => dated(items@, date@).len() == 0,
        },
{
    let mut i: usize = 0;
    assert(items@.take(0) =~= Seq::<JsonValue>::empty());
    while i < items.len()
        invariant
            i <= items@.len(),
            dated(items@.take(i as int), date@).len() == 0,
        decreases items@.len() - i,
    {
        proof {
            lemma_dated_step(items@, date@, i as int);
        }
        if same_date(&items[i], date) {
            proof {
                lemma_dated_prefix(items@, date@, i + 1, items@.len() as int);
                assert(dated(items@.take(i + 1), date@) =~= seq![items@[i as int]]);
                assert(items@.take(items@.len() as int) =~= items@);
            }
            return Some(condition_text_of(&items[i], "icon", ""));
        }
        i = i + 1;
    }
    assert(items@.take(items@.len() as int) =~= items@);
    None
}

proof fn lemma_dated_prefix(items: Seq<JsonValue>, date: Seq<char>, i: int, j: int)
    requires
        0 <= i <= j <= items.len(),
    ensures
        dated(items.take(i), date).len() <= dated(items.take(j), date).len(),
        forall|k: int| 0 <= k < dated(items.take(i), date).len() ==> #[trigger] dated(items.take(j), date)[k]
            == dated(items.take(i), date)[k],
    decreases j - i,
{
    if i < j {
        lemma_dated_prefix(items, date, i, j - 1);
        lemma_dated_step(items, date, j - 1);
    }
}

/// The summary line of one day.
pub open spec fn day_line(date: Seq<char>, group: Seq<JsonValue>, u: Seq<char>) -> Seq<PieceView> {
    seq![
        PieceView::Text("**"@ + date + "**: High "@),
        PieceView::Highest(nums_at(group, seq!["main", "temp_max"])),
        PieceView::Text("°"@ + u + " / Low "@),
        PieceView::Lowest(nums_at(group, seq!["main", "temp_min"])),
        PieceView::Text("°"@ + u + ", "@ + titlecase(two_descriptions(group)) + ", ☔ "@),
        PieceView::HighestPercent(nums_at(group, seq!["pop"])),
        PieceView::Text("% chance"@ + icon_markdown(day_icon(group)) + "\n"@),
    ]
}

/// The summary lines of the days, in order.
pub open spec fn day_lines(items: Seq<JsonValue>, dates: Seq<Seq<char>>, u: Seq<char>) -> Seq<PieceView>
    decreases dates.len(),
{
    if dates.len() == 0 {
        Seq::empty()
    } else {
        day_lines(items, dates.drop_last(), u) + day_line(dates.last(), dated(items, dates.last()), u)
    }
}

/// Title-casing the descriptions of each day cannot panic, nor can cutting
/// the date off each stamp.
pub open spec fn days_renderable(items: Seq<JsonValue>) -> bool {
    &&& forall|i: int|
        0 <= i < items.len() && (#[trigger] stamp(items[i])) is Some ==> byte_boundary(stamp(items[i])->0, 10)
    &&& forall|k: int|
        0 <= k < forecast_dates(items).len() ==> words_start_narrow(
            two_descriptions(dated(items, #[trigger] forecast_dates(items)[k])),
        )
}

fn two_descriptions_of(items: &Vec<JsonValue>, date: &str) -> (r: String)
    ensures
        r@ == two_descriptions(dated(items@, date@)),
{
    let ds = dated_descriptions(items, date);
    let ghost dv = views(ds@);
    let mut out = String::new();
    proof {
        reveal_strlit("");
    }
    if ds.len() == 0 {
        assert(dv.take(0) =~= Seq::<Seq<char>>::empty());
        return out;
    }
    out.append(ds[0].as_str());
    assert(dv.take(1) =~= seq![dv[0]]);
    assert(join(seq![dv[0]], ", "@) == dv[0]);
    if ds.len() > 1 {
        out.append(", ");
        out.append(ds[1].as_str());
        let ghost two = seq![dv[0], dv[1]];
        assert(dv.take(2) =~= two);
        assert(two.drop_last() =~= seq![dv[0]]);
        assert(two.last() == dv[1]);
        assert(join(two, ", "@) == join(seq![dv[0]], ", "@) + ", "@ + dv[1]);
    }
    out
}

fn day_texts(items: &Vec<JsonValue>, date: &str, units: &str) -> (r: (String, String, String, String))
    requires
        words_start_narrow(two_descriptions(dated(items@, date@))),
    ensures
        r.0@ == "**"@ + date@ + "**: High "@,
        r.1@ == "°"@ + temp_unit(units@) + " / Low "@,
        r.2@ == "°"@ + temp_unit(units@) + ", "@ + titlecase(two_descriptions(dated(items@, date@))) + ", ☔ "@,
        r.3@ == "% chance"@ + icon_markdown(day_icon(dated(items@, date@))) + "\n"@,
{
    let mut a = copy_str("**");
    a.append(date);
    a.append("**: High ");
    let mut b = copy_str("°");
    b.append(temperature_unit(units));
    b.append(" / Low ");
    let mut c = copy_str("°");
    c.append(temperature_unit(units));
    c.append(", ");
    c.append(to_titlecase(two_descriptions_of(items, date).as_str()).as_str());
    c.append(", ☔ ");
    let noon = dated_noon_icon(items, date);
    let first = dated_first_icon(items, date);
    proof {
        reveal_strlit("");
    }
    let icon = match noon {
        Some(i) => if !crate::text::is_empty_str(i.as_str()) {
            i
        } else {
            match first {
                Some(f) => f,
                None => String::new(),
            }
        },
        None => match first {
            Some(f) => f,
            None => String::new(),
        },
    };
    let mut e = copy_str("% chance");
    e.append(icon_markdown_of(icon.as_str()).as_str());
    e.append("\n");
    (a, b, c, e)
}

fn day_numbers(items: &Vec<JsonValue>, date: &str) -> (r: (Vec<JsonNumber>, Vec<JsonNumber>, Vec<JsonNumber>))
    ensures
        nums_view(r.0@) == nums_at(dated(items@, date@), seq!["main", "temp_max"]),
        nums_view(r.1@) == nums_at(dated(items@, date@), seq!["main", "temp_min"]),
        nums_view(r.2@) == nums_at(dated(items@, date@), seq!["pop"]),
{
    let p1: [&str; 2] = ["main", "temp_max"];
    let p2: [&str; 2] = ["main", "temp_min"];
    let p3: [&str; 1] = ["pop"];
    assert(p1@ =~= seq!["main", "temp_max"]);
    assert(p2@ =~= seq!["main", "temp_min"]);
    assert(p3@ =~= seq!["pop"]);
    let maxes = dated_nums(items, date, p1.as_slice());
    let mins = dated_nums(items, date, p2.as_slice());
    let pops = dated_nums(items, date, p3.as_slice());
    (maxes, mins, pops)
}

#[verifier::rlimit(40)]
fn push_day_line(out: &mut Vec<Piece>, items: &Vec<JsonValue>, date: &str, units: &str)
    requires
        words_start_narrow(two_descriptions(dated(items@, date@))),
    ensures
        pieces_view(final(out)@) == pieces_view(old(out)@) + day_line(
            date@,
            dated(items@, date@),
            temp_unit(units@),
        ),
{
    let ghost start = pieces_view(out@);
    let (a, b, c, e) = day_texts(items, date, units);
    let ghost (va, vb, vc, ve) = (a@, b@, c@, e@);
    let (maxes, mins, pops) = day_numbers(items, date);
    let ghost (mx, mn, pp) = (nums_view(maxes@), nums_view(mins@), nums_view(pops@));
    out.push(text_piece(a));
    out.push(Piece::Highest(maxes));
    out.push(text_piece(b));
    out.push(Piece::Lowest(mins));
    out.push(text_piece(c));
    out.push(Piece::HighestPercent(pops));
    out.push(text_piece(e));
    assert(pieces_view(out@) =~= start + seq![
        PieceView::Text(va),
        PieceView::Highest(mx),
        PieceView::Text(vb),
        PieceView::Lowest(mn),
        PieceView::Text(vc),
        PieceView::HighestPercent(pp),
        PieceView::Text(ve),
    ]);
}

#[verifier::rlimit(40)]
fn push_day_lines(out: &mut Vec<Piece>, items: &Vec<JsonValue>, units: &str)
    requires
        days_renderable(items@),
    ensures
        pieces_view(final(out)@) == pieces_view(old(out)@) + day_lines(
            items@,
            forecast_dates(items@),
            temp_unit(units@),
        ),
{
    let ghost start = pieces_view(out@);
    let ghost u = temp_unit(units@);
    let dates = forecast_dates_of(items);
    let ghost dv = views(dates@);
    let mut k: usize = 0;
    assert(dv.take(0) =~= Seq::<Seq<char>>::empty());
    while k < dates.len()
        invariant
            k <= dates@.len(),
            dv == views(dates@),
            dv == forecast_dates(items@),
            days_renderable(items@),
            u == temp_unit(units@),
            pieces_view(out@) == start + day_lines(items@, dv.take(k as int), u),
        decreases dates@.len() - k,
    {
        assert(dv.take(k + 1).drop_last() =~= dv.take(k as int));
        assert(dv.take(k + 1).last() == dv[k as int]);
        let ghost before = pieces_view(out@);
        assert(words_start_narrow(two_descriptions(dated(items@, forecast_dates(items@)[k as int]))));
        assert(dates@[k as int]@ == dv[k as int]);
        push_day_line(out, items, dates[k].as_str(), units);
        assert(day_lines(items@, dv.take(k + 1), u) == day_lines(items@, dv.take(k as int), u) + day_line(
            dv[k as int],
            dated(items@, dv[k as int]),
            u,
        ));
        k = k + 1;
    }
    assert(dv.take(dv.len() as int) =~= dv);
}

/// The forecast answer for a reply and, when one is asked for, a date.
pub open spec fn forecast_answer(d: JsonValue, target: Option<Seq<char>>, units: Seq<char>) -> Result<
    Seq<PieceView>,
    Seq<char>,
> {
    match as_list(get(d, "list"@)) {
        None => Err("Missing 'list' in forecast data"@),
        Some(items) => {
            let u = temp_unit(units);
            let head = seq![
                PieceView::Text(
                    "🗓️ **5-Day Weather Forecast for "@ + text_or(d, seq!["city", "name"], "Unknown Location"@)
                        + "**\n\n"@,
                ),
            ];
            Ok(
                head + match target {
                    Some(date) => seq![PieceView::Text("**Forecast for "@ + date + ":**\n"@)] + slot_lines(
                        items,
                        date,
                        u,
                    ) + if exists|i: int| 0 <= i < items.len() && on_date(#[trigger] items[i], date) {
                        Seq::empty()
                    } else {
                        seq![
                            PieceView::Text(
                                "(No data found for this date. Note: Forecast is only for next 5 days)\n"@,
                            ),
                        ]
                    },
                    None => day_lines(items, forecast_dates(items), u),
                },
            )
        },
    }
}

/// Rendering the forecast cannot panic: the stamps can be cut where the
/// answer cuts them, and the descriptions can be title-cased.
pub open spec fn forecast_renderable(d: JsonValue, target: Option<Seq<char>>) -> bool {
    match as_list(get(d, "list"@)) {
        Some(items) => match target {
            Some(date) => slots_renderable(items, date),
            None => days_renderable(items),
        },
        None => true,
    }
}

impl ForecastTool {
    /// Renders a forecast reply in `units`, as pieces: every entry of
    /// `target_date` when one is given, else a summary line per day, days in
    /// ascending order. Of a day's descriptions the first two seen are shown.
    pub fn format_forecast_response(d: &JsonValue, target_date: Option<&str>, units: &str) -> (r: Result<
        Vec<Piece>,
        String,
    >)
        requires
            forecast_renderable(
                *d,
                match target_date {
                    Some(t) => Some(t@),
                    None => None,
                },
            ),
        ensures
            match forecast_answer(
                *d,
                match target_date {
                    Some(t) => Some(t@),
                    None => None,
                },
                units@,
            ) {
                Ok(ps) => r matches Ok(v) && pieces_view(v@) == ps,
                Err(m) => r matches Err(e) && e@ == m,
            },
    {
        let items = match (match d.get("list") {
            Some(x) => x.as_array(),
            None => None,
        }) {
            Some(items) => items,
            None => {
                return Err(copy_str("Missing 'list' in forecast data"));
            },
        };
        proof {
            lemma_lookup2(*d, "city", "name");
        }
        let mut out: Vec<Piece> = Vec::new();
        let mut h = copy_str("🗓️ **5-Day Weather Forecast for ");
        h.append(d.text2_or("city", "name", "Unknown Location").as_str());
        h.append("**\n\n");
        let ghost hv = h@;
        out.push(text_piece(h));
        assert(pieces_view(out@) =~= seq![PieceView::Text(hv)]);
        let ghost head = pieces_view(out@);
        match target_date {
            Some(date) => {
                let mut f = copy_str("**Forecast for ");
                f.append(date);
                f.append(":**\n");
                let ghost fv = f@;
                out.push(text_piece(f));
                assert(pieces_view(out@) =~= head + seq![PieceView::Text(fv)]);
                let ghost mid = pieces_view(out@);
                let found = push_slot_lines(&mut out, items, date, units);
                let ghost after = pieces_view(out@);
                if !found {
                    out.push(text_piece(copy_str("(No data found for this date. Note: Forecast is only for next 5 days)\n")));
                    assert(pieces_view(out@) =~= after + seq![
                        PieceView::Text("(No data found for this date. Note: Forecast is only for next 5 days)\n"@),
                    ]);
                } else {
                    assert(pieces_view(out@) =~= after + Seq::<PieceView>::empty());
                }
            },
            None => {
                push_day_lines(&mut out, items, units);
            },
        }
        Ok(out)
    }
}

proof fn lemma_fitting_prefix_fits(s: Seq<char>, max: nat)
    ensures
        byte_len(s.take(fitting_prefix_len(s, max) as int)) <= max,
        fitting_prefix_len(s, max) <= s.len(),
    decreases s.len(),
{
    if byte_len(s) <= max {
        assert(s.take(s.len() as int) =~= s);
    } else {
        lemma_fitting_prefix_fits(s.drop_last(), max);
        let k = fitting_prefix_len(s.drop_last(), max);
        assert(s.drop_last().take(k as int) =~= s.take(k as int));
    }
}

/// Whether byte `n` of `t` is a character boundary within it.
fn byte_boundary_exec(t: &str, n: usize) -> (b: bool)
    ensures
        b == byte_boundary(t@, n as nat),
{
    let cs = crate::text::chars_of(t);
    let (k, _) = crate::text::fitting_prefix(cs.as_slice(), n);
    proof {
        lemma_fitting_prefix_fits(cs@, n as nat);
    }
    let mut total: usize = 0;
    let mut i: usize = 0;
    assert(cs@.take(0) =~= Seq::<char>::empty());
    while i < k
        invariant
            i <= k,
            k == fitting_prefix_len(cs@, n as nat),
            k <= cs@.len(),
            byte_len(cs@.take(k as int)) <= n,
            total == byte_len(cs@.take(i as int)),
        decreases k - i,
    {
        proof {
            crate::text::lemma_byte_len_take(cs@, i as int);
            crate::text::lemma_byte_len_mono(cs@, i + 1, k as int);
        }
        total = total + crate::text::exec_utf8_len(cs[i]);
        i = i + 1;
    }
    total == n
}

fn fitting_len(t: &str, n: usize) -> (k: usize)
    ensures
        k == fitting_prefix_len(t@, n as nat),
{
    let cs = crate::text::chars_of(t);
    let (k, _) = crate::text::fitting_prefix(cs.as_slice(), n);
    k
}

/// Whether rendering the forecast of `d` (for `target_date`, if any) is
/// free of panics: the check a caller makes before rendering.
pub fn forecast_renderable_exec(d: &JsonValue, target_date: Option<&str>) -> (b: bool)
    ensures
        b == forecast_renderable(
            *d,
            match target_date {
                Some(t) => Some(t@),
                None => None,
            },
        ),
{
    let items = match (match d.get("list") {
        Some(x) => x.as_array(),
        None => None,
    }) {
        Some(items) => items,
        None => {
            return true;
        },
    };
    assert(as_list(get(*d, "list"@)) == Some(items@));
    match target_date {
        Some(date) => {
            let mut i: usize = 0;
            while i < items.len()
                invariant
                    i <= items@.len(),
                    target_date == Some(date),
                    as_list(get(*d, "list"@)) == Some(items@),
                    forall|j: int|
                        0 <= j < i && on_date(#[trigger] items@[j], date@) ==> {
                            &&& byte_boundary(stamp(items@[j])->0, 11)
                            &&& byte_boundary(stamp(items@[j])->0, 16)
                            &&& fitting_prefix_len(stamp(items@[j])->0, 11) <= fitting_prefix_len(
                                stamp(items@[j])->0,
                                16,
                            )
                            &&& words_start_narrow(condition_text(items@[j], "description", "unknown"@))
                        },
                decreases items@.len() - i,
            {
                proof {
                    lemma_lookup1(items@[i as int], "dt_txt");
                }
                match items[i].text1("dt_txt") {
                    Some(t) => if crate::text::starts_with(t, date) {
                        let ok = byte_boundary_exec(t, 11) && byte_boundary_exec(t, 16) && fitting_len(t, 11)
                            <= fitting_len(t, 16) && words_start_narrow_exec(
                            condition_text_of(&items[i], "description", "unknown").as_str(),
                        );
                        if !ok {
                            assert(on_date(items@[i as int], date@));
                            assert(stamp(items@[i as int]) == Some(t@));
                            return false;
                        }
                    },
                    None => {},
                }
                i = i + 1;
            }
            true
        },
        None => {
            let mut i: usize = 0;
            while i < items.len()
                invariant
                    i <= items@.len(),
                    target_date is None,
                    as_list(get(*d, "list"@)) == Some(items@),
                    forall|j: int|
                        0 <= j < i && (#[trigger] stamp(items@[j])) is Some ==> byte_boundary(
                            stamp(items@[j])->0,
                            10,
                        ),
                decreases items@.len() - i,
            {
                proof {
                    lemma_lookup1(items@[i as int], "dt_txt");
                }
                match items[i].text1("dt_txt") {
                    Some(t) => if !byte_boundary_exec(t, 10) {
                        assert(stamp(items@[i as int]) is Some);
                        return false;
                    },
                    None => {},
                }
                i = i + 1;
            }
            let dates = forecast_dates_of(items);
            let ghost dv = views(dates@);
            let mut k: usize = 0;
            while k < dates.len()
                invariant
                    k <= dates@.len(),
                    target_date is None,
                    as_list(get(*d, "list"@)) == Some(items@),
                    forall|j: int|
                        0 <= j < items@.len() && (#[trigger] stamp(items@[j])) is Some ==> byte_boundary(
                            stamp(items@[j])->0,
                            10,
                        ),
                    dv == views(dates@),
                    dv == forecast_dates(items@),
                    forall|m: int|
                        0 <= m < k ==> words_start_narrow(
                            two_descriptions(dated(items@, #[trigger] forecast_dates(items@)[m])),
                        ),
                decreases dates@.len() - k,
            {
                assert(dates@[k as int]@ == dv[k as int]);
                if !words_start_narrow_exec(two_descriptions_of(items, dates[k].as_str()).as_str()) {
                    assert(forecast_dates(items@)[k as int] == dv[k as int]);
                    return false;
                }
                k = k + 1;
            }
            true
        },
    }
}

/// The date a forecast call asks for, given today's and tomorrow's dates: a
/// text that mentions tomorrow (in any case) means tomorrow, one that
/// mentions today means today, any other is taken as it stands.
pub open spec fn resolved_date(target: Seq<char>, today: Seq<char>, tomorrow: Seq<char>) -> Seq<char> {
    if contains_seq(lowercase(target), "tomorrow"@) {
        tomorrow
    } else if contains_seq(lowercase(target), "today"@) {
        today
    } else {
        target
    }
}

/// Resolves the words "today" and "tomorrow" in a forecast's target date.
pub fn resolve_target_date(target: &str, today: &str, tomorrow: &str) -> (r: String)
    ensures
        r@ == resolved_date(target@, today@, tomorrow@),
{
    let l = to_lower(target);
    if str_contains(l.as_str(), "tomorrow") {
        copy_str(tomorrow)
    } else if str_contains(l.as_str(), "today") {
        copy_str(today)
    } else {
        copy_str(target)
    }
}

impl ForecastTool {
    /// The target date of a forecast call, with "today" and "tomorrow"
    /// resolved against one reading of the clock, tomorrow being the day
    /// after today: none when the call gave none.
    pub fn target_date(target: Option<&str>) -> (r: Option<String>)
        ensures
            match target {
                None => r is None,
                Some(t) => r matches Some(s) && exists|today: Seq<char>, tomorrow: Seq<char>|
                    #![trigger resolved_date(t@, today, tomorrow)]
                    crate::github::date_days_before(today, -1) == Some(tomorrow) && s@
                        == resolved_date(t@, today, tomorrow),
            },
    {
        match target {
            None => None,
            Some(t) => {
                let (today, tomorrow) = crate::github::utc_dates(-1);
                let s = resolve_target_date(t, today.as_str(), tomorrow.as_str());
                assert(s@ == resolved_date(t@, today@, tomorrow@));
                Some(s)
            },
        }
    }
}

/// A wind direction names the same compass point a full turn later.
pub proof fn law_compass_point_turns(degrees: u64)
    requires
        degrees + 360 <= u64::MAX,
    ensures
        compass_point((degrees + 360) as u64) == compass_point(degrees),
{
    assert(((degrees + 360) as u64) % 360 == degrees % 360);
}

} // verus!
