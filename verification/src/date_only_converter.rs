//! A date-only field held as a Unix timestamp and written as `%Y-%m-%d`.
pub mod date_only_to_timestamp;
