//! The summary shown on the e-paper panel.

use crate::weather::{Reading, WeatherData};
use vstd::prelude::*;

verus! {

/// What the panel shows: when the conditions were last updated and today's
/// temperatures, rain and snow.
#[derive(Debug)]
pub struct Dashboard {
    pub last_update: String,
    pub min_temp: Reading,
    pub max_temp: Reading,
    pub chance_of_rain: i64,
    pub total_rain_mm: Reading,
    pub chance_of_snow: i64,
    pub total_snow_cm: Reading,
}

impl Dashboard {
    /// Summarises a forecast document: the time of the current conditions
    /// and, from the first forecast day, the extreme temperatures in °C, the
    /// daily chances of rain and snow and the totals of precipitation (mm)
    /// and snow (cm). The document must hold at least one forecast day.
    pub fn from_weather_data(weather_data: &WeatherData) -> (dashboard: Self)
        requires
            weather_data.forecast.forecastday.len() > 0,
        ensures
            dashboard.last_update@ == weather_data.current.last_updated@,
            dashboard.max_temp == weather_data.forecast.forecastday[0].day.maxtemp_c,
            dashboard.min_temp == weather_data.forecast.forecastday[0].day.mintemp_c,
            dashboard.chance_of_rain
                == weather_data.forecast.forecastday[0].day.daily_chance_of_rain,
            dashboard.total_rain_mm == weather_data.forecast.forecastday[0].day.totalprecip_mm,
            dashboard.chance_of_snow
                == weather_data.forecast.forecastday[0].day.daily_chance_of_snow,
            dashboard.total_snow_cm == weather_data.forecast.forecastday[0].day.totalsnow_cm,
    {
        let today = &weather_data.forecast.forecastday[0].day;
        Dashboard {
            max_temp: today.maxtemp_c,
            min_temp: today.mintemp_c,
            last_update: weather_data.current.last_updated.clone(),
            chance_of_rain: today.daily_chance_of_rain,
            total_rain_mm: today.totalprecip_mm,
            chance_of_snow: today.daily_chance_of_snow,
            total_snow_cm: today.totalsnow_cm,
        }
    }
}

} // verus!
