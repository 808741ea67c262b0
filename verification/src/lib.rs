//! Monitoring core of an aurora alert service: feed parsing, an hourly
//! activity cache with gap filling, and the alert evaluation rules.

pub mod alerts;
pub mod api;
pub mod cache;
pub mod config;
pub mod email;
pub mod error;
pub mod feed;
pub mod level;
pub mod sanitise;
pub mod scheduler;
pub mod text;
pub mod time;
pub mod users;
