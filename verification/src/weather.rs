//! The WeatherAPI.com forecast document, as the forecast endpoint returns
//! it. Decimal readings (temperatures, speeds, amounts) are carried as
//! [`Reading`]s; the library copies them and never computes with them.

use vstd::prelude::*;

verus! {

/// A decimal reading of the forecast document, kept exactly as decoded: the
/// bit pattern of its IEEE 754 binary64 value.
#[derive(Clone, Copy, Debug, PartialEq, Eq, Structural)]
pub struct Reading {
    pub bits: u64,
}

/// A weather condition: its description, the service's icon URL and its
/// condition code.
#[derive(Debug)]
pub struct Condition {
    pub text: String,
    pub icon: String,
    pub code: i64,
}

/// The forecast for one hour of a day.
#[derive(Debug)]
pub struct HourForecast {
    pub time_epoch: i64,
    pub time: String,
    pub temp_c: Reading,
    pub temp_f: Reading,
    pub is_day: i64,
    pub condition: Condition,
    pub wind_mph: Reading,
    pub wind_kph: Reading,
    pub wind_degree: i64,
    pub wind_dir: String,
    pub pressure_mb: Reading,
    pub pressure_in: Reading,
    pub precip_mm: Reading,
    pub precip_in: Reading,
    pub snow_cm: Reading,
    pub humidity: i64,
    pub cloud: i64,
    pub feelslike_c: Reading,
    pub feelslike_f: Reading,
    pub windchill_c: Reading,
    pub windchill_f: Reading,
    pub heatindex_c: Reading,
    pub heatindex_f: Reading,
    pub dewpoint_c: Reading,
    pub dewpoint_f: Reading,
    pub will_it_rain: i64,
    pub chance_of_rain: i64,
    pub will_it_snow: i64,
    pub chance_of_snow: i64,
    pub vis_km: Reading,
    pub vis_miles: Reading,
    pub gust_mph: Reading,
    pub gust_kph: Reading,
}

/// Sun and moon times of a day.
#[derive(Debug)]
pub struct Astro {
    pub sunrise: String,
    pub sunset: String,
    pub moonrise: String,
    pub moonset: String,
    pub moon_phase: String,
    pub moon_illumination: i64,
    pub is_moon_up: i64,
    pub is_sun_up: i64,
}

/// The summary of a forecast day.
#[derive(Debug)]
pub struct Day {
    pub maxtemp_c: Reading,
    pub maxtemp_f: Reading,
    pub mintemp_c: Reading,
    pub mintemp_f: Reading,
    pub avgtemp_c: Reading,
    pub avgtemp_f: Reading,
    pub maxwind_mph: Reading,
    pub maxwind_kph: Reading,
    pub totalprecip_mm: Reading,
    pub totalprecip_in: Reading,
    pub totalsnow_cm: Reading,
    pub avgvis_km: Reading,
    pub avgvis_miles: Reading,
    pub avghumidity: i64,
    pub daily_will_it_rain: i64,
    pub daily_chance_of_rain: i64,
    pub daily_will_it_snow: i64,
    pub daily_chance_of_snow: i64,
    pub condition: Condition,
    pub uv: Reading,
}

/// One forecast day: its date, summary, astronomy and hourly forecasts.
#[derive(Debug)]
pub struct DayForecast {
    pub date: String,
    pub date_epoch: i64,
    pub day: Day,
    pub astro: Astro,
    pub hour: Vec<HourForecast>,
}

/// The forecast days, today first.
#[derive(Debug)]
pub struct Forecast {
    pub forecastday: Vec<DayForecast>,
}

/// The current conditions.
#[derive(Debug)]
pub struct Current {
    pub last_updated_epoch: i64,
    pub last_updated: String,
    pub temp_c: Reading,
    pub temp_f: Reading,
    pub is_day: i64,
    pub condition: Condition,
    pub wind_mph: Reading,
    pub wind_kph: Reading,
    pub wind_degree: i64,
    pub wind_dir: String,
    pub pressure_mb: Reading,
    pub pressure_in: Reading,
    pub precip_mm: Reading,
    pub precip_in: Reading,
    pub humidity: i64,
    pub cloud: i64,
    pub feelslike_c: Reading,
    pub feelslike_f: Reading,
    pub windchill_c: Reading,
    pub windchill_f: Reading,
    pub heatindex_c: Reading,
    pub heatindex_f: Reading,
    pub dewpoint_c: Reading,
    pub dewpoint_f: Reading,
    pub vis_km: Reading,
    pub vis_miles: Reading,
    pub uv: Reading,
    pub gust_mph: Reading,
    pub gust_kph: Reading,
    pub will_it_rain: i64,
    pub chance_of_rain: i64,
    pub will_it_snow: i64,
    pub chance_of_snow: i64,
    pub short_rad: Reading,
    pub diff_rad: Reading,
    pub dni: Reading,
    pub gti: Reading,
}

/// The place that the forecast is for.
#[derive(Debug)]
pub struct Location {
    pub name: String,
    pub region: String,
    pub country: String,
    pub lat: Reading,
    pub lon: Reading,
    pub tz_id: String,
    pub localtime_epoch: i64,
    pub localtime: String,
}

/// The whole forecast document.
#[derive(Debug)]
pub struct WeatherData {
    pub location: Location,
    pub current: Current,
    pub forecast: Forecast,
}

} // verus!
