//! The error kinds a caller of the service can observe.

pub mod pizza_error;
