//! Weather report pieces: unit symbols, condition icons, METAR text.

use vstd::prelude::*;
use vstd::string::*;
use crate::text::{is_whitespace, unicode_space};

verus! {

/// One weather condition as the forecast service describes it.
pub struct WeatherWeather {
    pub description: String,
    /// The service's icon code, such as `01d`.
    pub icon: String,
}

/// A METAR report as the aviation weather service returns it.
pub struct MetarResponse {
    pub sanitized: String,
}

/// The symbol of a temperature unit; kelvin for any unit not named.
pub open spec fn unit_symbol(unit: Seq<char>) -> Seq<char> {
    if unit == "celsius"@ {
        "°C"@
    } else if unit == "fahrenheit"@ {
        "°F"@
    } else {
        "K"@
    }
}

/// The emoji for a condition icon code; empty for an unknown code.
pub open spec fn icon_emoji(icon: Seq<char>) -> Seq<char> {
    if icon == "01d"@ {
        "☀️"@
    } else if icon == "01n"@ {
        "🌃"@
    } else if icon == "02d"@ || icon == "04d"@ {
        "⛅"@
    } else if icon == "02n"@ || icon == "03d"@ || icon == "03n"@ || icon == "04n"@ {
        "☁️"@
    } else if icon == "09d"@ || icon == "09n"@ || icon == "10d"@ || icon == "10n"@ {
        "🌧️"@
    } else if icon == "11d"@ || icon == "11n"@ {
        "🌩️"@
    } else if icon == "13d"@ || icon == "13n"@ {
        "🌨️"@
    } else if icon == "50d"@ || icon == "50n"@ {
        "🌫️"@
    } else {
        ""@
    }
}

fn same(a: &String, b: &str) -> (r: bool)
    ensures
        r == (a@ == b@),
{
    a.eq(&String::from_str(b))
}

/// The symbol of a temperature unit.
pub fn convert_unit_to_symbol(unit: &str) -> (r: String)
    ensures
        r@ == unit_symbol(unit@),
{
    let unit = String::from_str(unit);
    let symbol = if same(&unit, "celsius") {
        "°C"
    } else if same(&unit, "fahrenheit") {
        "°F"
    } else {
        "K"
    };
    String::from_str(symbol)
}

/// The emoji for a condition icon code.
pub fn emoji(icon: &str) -> (r: String)
    ensures
        r@ == icon_emoji(icon@),
{
    let icon = String::from_str(icon);
    let e = if same(&icon, "01d") {
        "☀️"
    } else if same(&icon, "01n") {
        "🌃"
    } else if same(&icon, "02d") || same(&icon, "04d") {
        "⛅"
    } else if same(&icon, "02n") || same(&icon, "03d") || same(&icon, "03n") || same(&icon, "04n") {
        "☁️"
    } else if same(&icon, "09d") || same(&icon, "09n") || same(&icon, "10d") || same(&icon, "10n") {
        "🌧️"
    } else if same(&icon, "11d") || same(&icon, "11n") {
        "🌩️"
    } else if same(&icon, "13d") || same(&icon, "13n") {
        "🌨️"
    } else if same(&icon, "50d") || same(&icon, "50n") {
        "🌫️"
    } else {
        ""
    };
    String::from_str(e)
}

impl MetarResponse {
    /// The report set as code.
    pub fn text(&self) -> (r: String)
        ensures
            r@ == "`"@ + self.sanitized@ + "`"@,
    {
        let mut r = String::from_str("`");
        r.append(self.sanitized.as_str());
        r.append("`");
        r
    }
}

/// `s` begins with the word `w` followed by white space.
pub open spec fn begins_with_word(s: Seq<char>, w: Seq<char>) -> bool {
    s.len() > w.len() && s.take(w.len() as int) == w && unicode_space(s[w.len() as int])
}

/// The unit and the place that a weather request names, from what follows
/// the command: an optional leading `celsius`, `fahrenheit` or `kelvin`
/// word picks the unit, kelvin by default, and the rest is the place.
pub open spec fn weather_request_parts(rest: Seq<char>) -> (Seq<char>, Seq<char>) {
    if begins_with_word(rest, "celsius"@) {
        ("celsius"@, rest.skip(8))
    } else if begins_with_word(rest, "fahrenheit"@) {
        ("fahrenheit"@, rest.skip(11))
    } else if begins_with_word(rest, "kelvin"@) {
        ("kelvin"@, rest.skip(7))
    } else {
        ("kelvin"@, rest)
    }
}

fn begins_with(s: &str, w: &str) -> (r: bool)
    ensures
        r == begins_with_word(s@, w@),
{
    let n = s.unicode_len();
    let m = w.unicode_len();
    if n <= m {
        return false;
    }
    let mut i: usize = 0;
    while i < m
        invariant
            m == w@.len(),
            n == s@.len(),
            m < n,
            i <= m,
            forall|j: int| 0 <= j < i ==> s@[j] == w@[j],
        decreases m - i,
    {
        if s.get_char(i) != w.get_char(i) {
            assert(s@.take(m as int)[i as int] != w@[i as int]);
            return false;
        }
        i = i + 1;
    }
    assert(s@.take(m as int) =~= w@);
    is_whitespace(s.get_char(m))
}

/// Splits what follows a weather command into the unit and the place.
pub fn weather_request(rest: &str) -> (r: (String, String))
    ensures
        (r.0@, r.1@) == weather_request_parts(rest@),
{
    proof {
        reveal_strlit("celsius");
        reveal_strlit("fahrenheit");
        reveal_strlit("kelvin");
    }
    let n = rest.unicode_len();
    if begins_with(rest, "celsius") {
        (String::from_str("celsius"), String::from_str(rest.substring_char(8, n)))
    } else if begins_with(rest, "fahrenheit") {
        (String::from_str("fahrenheit"), String::from_str(rest.substring_char(11, n)))
    } else if begins_with(rest, "kelvin") {
        (String::from_str("kelvin"), String::from_str(rest.substring_char(7, n)))
    } else {
        (String::from_str("kelvin"), String::from_str(rest))
    }
}

} // verus!
