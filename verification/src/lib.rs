pub mod chrono_types;
pub mod decimal;
pub mod error;
pub mod formatting;
pub mod instant;
pub mod relative;

pub use error::TempusError;
pub use formatting::{to_date_string, to_iso8601, to_long_date, to_rfc2822};
pub use instant::Instant;
pub use relative::humanize::{humanize, humanize_delta, humanize_impl};
pub use relative::{
    days_ago, days_from_now, months_ago, months_from_now, tomorrow, weeks_ago, weeks_from_now,
    yesterday,
};
