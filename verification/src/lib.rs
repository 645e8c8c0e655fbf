//! Weather-station logic: WeatherAPI.com condition codes mapped to icon
//! names, the forecast data model, the dashboard summary, the icon bitmap
//! layout, the forecast request helpers, the polling schedule and the seeds
//! of the network stacks.

pub mod condition_icons;
pub mod dashboard;
pub mod forecast_request;
pub mod icon_bitmap;
pub mod schedule;
pub mod seed;
pub mod weather;

pub use condition_icons::{icon_for, icon_for_with_day};
