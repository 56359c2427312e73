//! A verified core for a terminal timeline widget: it maps absolute
//! instants onto the columns of a fixed 48-hour track, classifies local
//! hours into activity categories, detects daylight-saving transitions by
//! hourly sampling, places short text labels without leaving the track,
//! and composes the resulting rows of cells in a fixed overlay order.

pub mod clock;
pub mod config;
pub mod render;
pub mod text;
pub mod timeline;
pub mod zone;

pub use clock::{local_day_number, local_hour_of_day, local_minute_of_hour, local_weekday};
pub use config::{Activity, ColorTheme, ThemeColor, TimeDisplayConfig};
pub use render::{label_start, Cell};
pub use text::{caption_chars, date_label_chars, offset_chars};
pub use timeline::{DstTransition, TimeFormat, TimelineWidget, TimezoneDisplayMode};
pub use zone::TimeZone;
