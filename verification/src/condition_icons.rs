//! Maps WeatherAPI.com condition codes to icon file names stored under
//! `icons/` (without the `.bmp` extension).
//!
//! Some WeatherAPI conditions are returned with an `is_day` flag (0 = night,
//! 1 = day). The mapping therefore exposes two functions:
//!
//! - [`icon_for`] when the day/night flag is not relevant;
//! - [`icon_for_with_day`], which selects a day or night variant where the
//!   API distinguishes between them and otherwise agrees with [`icon_for`].
//!
//! WeatherAPI condition codes are documented at
//! <https://www.weatherapi.com/docs/weather_conditions.json>.

use vstd::prelude::*;

verus! {

/// The icon name for a condition `code`, without regard to day or night.
/// Codes that the table does not list fall back to `cloud`.
pub open spec fn icon_name(code: i64) -> Seq<char> {
    match code {
        1000 => "sunny"@,
        1003 => "partly_cloudy_day"@,
        1006 | 1009 => "cloud"@,
        // Haze, dust, sand, smoke and smog share the generic "air" icon.
        1012 | 1015 | 1018 | 1021 | 1024 | 1027 | 1033 | 1036 | 1039 | 1042 | 1045
        | 1048 => "air"@,
        1030 => "mist"@,
        1063 | 1150 | 1153 | 1180 | 1183 => "rainy_light"@,
        1066 | 1210 | 1213 | 1216 | 1219 | 1255 => "snowing"@,
        1069 | 1204 | 1207 | 1249 | 1252 => "weather_mix"@,
        1072 | 1168 | 1171 | 1198 | 1201 => "rainy_snow"@,
        1087 | 1273 | 1276 | 1279 | 1282 => "thunderstorm"@,
        1114 | 1117 | 1222 | 1225 | 1258 => "snowing_heavy"@,
        1135 | 1147 => "foggy"@,
        1186 | 1189 | 1240 => "rainy"@,
        1192 | 1195 | 1243 | 1246 => "rainy_heavy"@,
        1237 | 1261 | 1264 => "weather_hail"@,
        _ => "cloud"@,
    }
}

/// The icon name for a condition `code` at day (`is_day != 0`) or at night
/// (`is_day == 0`): clear and partly cloudy skies have night variants, every
/// other code is shown as by [`icon_name`].
pub open spec fn icon_name_with_day(code: i64, is_day: i64) -> Seq<char> {
    if code == 1000 && is_day == 0 {
        "nights_stay"@
    } else if code == 1003 && is_day == 0 {
        "partly_cloudy_night"@
    } else {
        icon_name(code)
    }
}

/// The names of the icons that the mapping can choose.
pub open spec fn is_icon_name(name: Seq<char>) -> bool {
    ||| name == "sunny"@
    ||| name == "nights_stay"@
    ||| name == "partly_cloudy_day"@
    ||| name == "partly_cloudy_night"@
    ||| name == "cloud"@
    ||| name == "air"@
    ||| name == "mist"@
    ||| name == "rainy_light"@
    ||| name == "rainy"@
    ||| name == "rainy_heavy"@
    ||| name == "rainy_snow"@
    ||| name == "snowing"@
    ||| name == "snowing_heavy"@
    ||| name == "weather_mix"@
    ||| name == "weather_hail"@
    ||| name == "thunderstorm"@
    ||| name == "foggy"@
}

/// Return the icon name for a WeatherAPI condition `code`, choosing a day
/// variant when `is_day` is non-zero and a night variant when it is zero.
///
/// Falls back to `cloud` for any unknown code so callers always get a
/// renderable icon.
pub fn icon_for_with_day(code: i64, is_day: i64) -> (name: &'static str)
    ensures
        name@ == icon_name_with_day(code, is_day),
{
    match code {
        // WeatherAPI uses the same code (1000) for "Sunny" during the day and
        // "Clear" at night.
        1000 => {
            if is_day == 0 {
                "nights_stay"
            } else {
                "sunny"
            }
        },
        // Code 1003 has distinct day/night illustrations.
        1003 => {
            if is_day == 0 {
                "partly_cloudy_night"
            } else {
                "partly_cloudy_day"
            }
        },
        // For all other codes the day/night variants are visually similar
        // enough to use the day/night-agnostic mapping.
        other => icon_for(other),
    }
}

/// Return the icon name for a WeatherAPI condition `code`, without
/// considering day vs. night.
///
/// Falls back to `cloud` for any unknown code so callers always get a
/// renderable icon.
pub fn icon_for(code: i64) -> (name: &'static str)
    ensures
        name@ == icon_name(code),
{
    match code {
        // --- Clear / sunny ---
        1000 => "sunny",
        // --- Cloud cover ---
        1003 => "partly_cloudy_day",
        1006 => "cloud",
        1009 => "cloud",
        // --- Atmospheric obstruction (haze, dust, smoke, smog, sand) ---
        1012 => "air",  // Haze
        1015 => "air",  // Dust haze
        1018 => "air",  // Blowing dust
        1021 => "air",  // Dust storm
        1024 => "air",  // Sandstorm
        1027 => "air",  // Severe sandstorm
        1030 => "mist",
        1033 => "air",  // Smoke
        1036 => "air",  // Smoky haze
        1039 => "air",  // Smog
        1042 => "air",  // Severe smog
        1045 => "air",  // Saharan dust
        1048 => "air",  // Dust
        // --- Patchy precipitation ---
        1063 => "rainy_light",  // Patchy rain nearby
        1066 => "snowing",  // Patchy snow nearby
        1069 => "weather_mix",  // Patchy sleet nearby
        1072 => "rainy_snow",  // Patchy freezing drizzle nearby
        1087 => "thunderstorm",  // Thundery outbreaks nearby
        // --- Blowing / blizzard ---
        1114 => "snowing_heavy",  // Blowing snow
        1117 => "snowing_heavy",  // Blizzard
        // --- Fog ---
        1135 => "foggy",  // Fog
        1147 => "foggy",  // Freezing fog
        // --- Drizzle ---
        1150 => "rainy_light",  // Patchy light drizzle
        1153 => "rainy_light",  // Light drizzle
        1168 => "rainy_snow",  // Freezing drizzle
        1171 => "rainy_snow",  // Heavy freezing drizzle
        // --- Rain ---
        1180 => "rainy_light",  // Patchy light rain
        1183 => "rainy_light",  // Light rain
        1186 => "rainy",  // Moderate rain at times
        1189 => "rainy",  // Moderate rain
        1192 => "rainy_heavy",  // Heavy rain at times
        1195 => "rainy_heavy",  // Heavy rain
        1198 => "rainy_snow",  // Light freezing rain
        1201 => "rainy_snow",  // Moderate or heavy freezing rain
        // --- Sleet ---
        1204 => "weather_mix",  // Light sleet
        1207 => "weather_mix",  // Moderate or heavy sleet
        // --- Snow ---
        1210 => "snowing",  // Patchy light snow
        1213 => "snowing",  // Light snow
        1216 => "snowing",  // Patchy moderate snow
        1219 => "snowing",  // Moderate snow
        1222 => "snowing_heavy",  // Patchy heavy snow
        1225 => "snowing_heavy",  // Heavy snow
        // --- Ice pellets ---
        1237 => "weather_hail",  // Ice pellets
        // --- Rain showers ---
        1240 => "rainy",  // Light rain shower
        1243 => "rainy_heavy",  // Moderate or heavy rain shower
        1246 => "rainy_heavy",  // Torrential rain shower
        // --- Sleet showers ---
        1249 => "weather_mix",  // Light sleet showers
        1252 => "weather_mix",  // Moderate or heavy sleet showers
        // --- Snow showers ---
        1255 => "snowing",  // Light snow showers
        1258 => "snowing_heavy",  // Moderate or heavy snow showers
        // --- Ice pellet showers ---
        1261 => "weather_hail",  // Light showers of ice pellets
        1264 => "weather_hail",  // Moderate or heavy showers of ice pellets
        // --- Thunder with precipitation ---
        1273 => "thunderstorm",  // Patchy light rain with thunder
        1276 => "thunderstorm",  // Moderate or heavy rain with thunder
        1279 => "thunderstorm",  // Patchy light snow with thunder
        1282 => "thunderstorm",  // Moderate or heavy snow with thunder
        // --- Fallback for any unknown / future code ---
        _ => "cloud",
    }
}

/// In daylight the day/night-aware mapping agrees with the plain one: for
/// every code and every non-zero `is_day`, `icon_for_with_day(code, is_day)`
/// names the same icon as `icon_for(code)`.
pub proof fn lemma_daylight_agrees_with_plain_mapping(code: i64, is_day: i64)
    requires
        is_day != 0,
    ensures
        icon_name_with_day(code, is_day) == icon_name(code),
{
}

/// Only clear (1000) and partly cloudy (1003) skies depend on the day/night
/// flag: for any other code both mappings name the same icon, whatever
/// `is_day` holds.
pub proof fn lemma_day_flag_matters_only_for_clear_and_partly_cloudy(code: i64, is_day: i64)
    requires
        code != 1000,
        code != 1003,
    ensures
        icon_name_with_day(code, is_day) == icon_name(code),
{
}

/// Every code, known or not, by day or by night, maps to one of the icons
/// of the set, so callers always get a renderable icon.
pub proof fn lemma_every_code_has_a_known_icon(code: i64, is_day: i64)
    ensures
        is_icon_name(icon_name(code)),
        is_icon_name(icon_name_with_day(code, is_day)),
{
}

/// A code that the table does not list is shown as `cloud`, by day and by
/// night.
pub proof fn lemma_unknown_codes_fall_back_to_cloud(code: i64, is_day: i64)
    requires
        !(1000 <= code <= 1282),
    ensures
        icon_name(code) == "cloud"@,
        icon_name_with_day(code, is_day) == "cloud"@,
{
}

/// The mapping, icon by icon: each icon is chosen for exactly the listed
/// WeatherAPI codes (clear, partly cloudy, haze and dust, mist, light rain
/// and drizzle, snow, sleet, freezing rain, thunder, heavy snow, fog, rain,
/// heavy rain, ice pellets), `cloud` for overcast skies and for every code
/// that is not listed, and the night icons never without the day flag.
/// The lengths and leading characters that tell the icon names apart.
proof fn lemma_icon_names_differ()
    ensures
        "sunny"@.len() == 5,
        "sunny"@[0] == 's',
        "partly_cloudy_day"@.len() == 17,
        "partly_cloudy_day"@[0] == 'p',
        "air"@.len() == 3,
        "air"@[0] == 'a',
        "mist"@.len() == 4,
        "mist"@[0] == 'm',
        "rainy_light"@.len() == 11,
        "rainy_light"@[0] == 'r',
        "snowing"@.len() == 7,
        "snowing"@[0] == 's',
        "weather_mix"@.len() == 11,
        "weather_mix"@[0] == 'w',
        "rainy_snow"@.len() == 10,
        "rainy_snow"@[0] == 'r',
        "thunderstorm"@.len() == 12,
        "thunderstorm"@[0] == 't',
        "snowing_heavy"@.len() == 13,
        "snowing_heavy"@[0] == 's',
        "foggy"@.len() == 5,
        "foggy"@[0] == 'f',
        "rainy"@.len() == 5,
        "rainy"@[0] == 'r',
        "rainy_heavy"@.len() == 11,
        "rainy_heavy"@[0] == 'r',
        "weather_hail"@.len() == 12,
        "weather_hail"@[0] == 'w',
        "cloud"@.len() == 5,
        "cloud"@[0] == 'c',
        "nights_stay"@.len() == 11,
        "nights_stay"@[0] == 'n',
        "partly_cloudy_night"@.len() == 19,
        "partly_cloudy_night"@[0] == 'p',
        "rainy_light"@[6] == 'l',
        "rainy_heavy"@[6] == 'h',
{
    reveal_strlit("sunny");
    reveal_strlit("partly_cloudy_day");
    reveal_strlit("air");
    reveal_strlit("mist");
    reveal_strlit("rainy_light");
    reveal_strlit("snowing");
    reveal_strlit("weather_mix");
    reveal_strlit("rainy_snow");
    reveal_strlit("thunderstorm");
    reveal_strlit("snowing_heavy");
    reveal_strlit("foggy");
    reveal_strlit("rainy");
    reveal_strlit("rainy_heavy");
    reveal_strlit("weather_hail");
    reveal_strlit("cloud");
    reveal_strlit("nights_stay");
    reveal_strlit("partly_cloudy_night");
}

pub proof fn lemma_icon_of_each_code(code: i64)
    ensures
        icon_name(code) == "sunny"@ <==> (code == 1000),
        icon_name(code) == "partly_cloudy_day"@ <==> (code == 1003),
        icon_name(code) == "air"@ <==> (code == 1012 || code == 1015 || code == 1018 || code == 1021 || code == 1024 || code == 1027 || code == 1033 || code == 1036 || code == 1039 || code == 1042 || code == 1045 || code == 1048),
        icon_name(code) == "mist"@ <==> (code == 1030),
        icon_name(code) == "rainy_light"@ <==> (code == 1063 || code == 1150 || code == 1153 || code == 1180 || code == 1183),
        icon_name(code) == "snowing"@ <==> (code == 1066 || code == 1210 || code == 1213 || code == 1216 || code == 1219 || code == 1255),
        icon_name(code) == "weather_mix"@ <==> (code == 1069 || code == 1204 || code == 1207 || code == 1249 || code == 1252),
        icon_name(code) == "rainy_snow"@ <==> (code == 1072 || code == 1168 || code == 1171 || code == 1198 || code == 1201),
        icon_name(code) == "thunderstorm"@ <==> (code == 1087 || code == 1273 || code == 1276 || code == 1279 || code == 1282),
        icon_name(code) == "snowing_heavy"@ <==> (code == 1114 || code == 1117 || code == 1222 || code == 1225 || code == 1258),
        icon_name(code) == "foggy"@ <==> (code == 1135 || code == 1147),
        icon_name(code) == "rainy"@ <==> (code == 1186 || code == 1189 || code == 1240),
        icon_name(code) == "rainy_heavy"@ <==> (code == 1192 || code == 1195 || code == 1243 || code == 1246),
        icon_name(code) == "weather_hail"@ <==> (code == 1237 || code == 1261 || code == 1264),
        icon_name(code) == "cloud"@ <==> (code == 1006 || code == 1009 || !(code == 1000 || code == 1003 || code == 1012 || code == 1015 || code == 1018 || code == 1021 || code == 1024 || code == 1027 || code == 1030 || code == 1033 || code == 1036 || code == 1039 || code == 1042 || code == 1045 || code == 1048 || code == 1063 || code == 1066 || code == 1069 || code == 1072 || code == 1087 || code == 1114 || code == 1117 || code == 1135 || code == 1147 || code == 1150 || code == 1153 || code == 1168 || code == 1171 || code == 1180 || code == 1183 || code == 1186 || code == 1189 || code == 1192 || code == 1195 || code == 1198 || code == 1201 || code == 1204 || code == 1207 || code == 1210 || code == 1213 || code == 1216 || code == 1219 || code == 1222 || code == 1225 || code == 1237 || code == 1240 || code == 1243 || code == 1246 || code == 1249 || code == 1252 || code == 1255 || code == 1258 || code == 1261 || code == 1264 || code == 1273 || code == 1276 || code == 1279 || code == 1282)),
        icon_name(code) != "nights_stay"@,
        icon_name(code) != "partly_cloudy_night"@,
{
    lemma_icon_names_differ();
}

/// By night, clear skies show `nights_stay` and partly cloudy skies
/// `partly_cloudy_night`, and no other code shows either; by day neither
/// night icon is ever shown.
pub proof fn lemma_night_icons(code: i64, is_day: i64)
    ensures
        icon_name_with_day(code, is_day) == "nights_stay"@ <==> (code == 1000 && is_day == 0),
        icon_name_with_day(code, is_day) == "partly_cloudy_night"@ <==> (code == 1003 && is_day
            == 0),
        (code == 1000 && is_day != 0) ==> icon_name_with_day(code, is_day) == "sunny"@,
        (code == 1003 && is_day != 0) ==> icon_name_with_day(code, is_day)
            == "partly_cloudy_day"@,
{
    lemma_icon_names_differ();
    lemma_icon_of_each_code(code);
}

} // verus!
