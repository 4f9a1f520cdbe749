//! Error type of the storage API: a static message, an underlying cause, or
//! both, with conversions from `Result` and `Option`.

pub mod error;
