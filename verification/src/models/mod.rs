//! The record model: the `Pizza` entity and the shapes of incoming requests.

pub mod pizza;
