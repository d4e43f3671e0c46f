//! Short-lived signed credentials for service-to-service calls, and the
//! admission control that guards the endpoints handing them out.

pub mod config;
pub mod controllers;
pub mod error;
pub mod exception;
pub mod models;
pub mod named;
pub mod payload;
pub mod rate_limit;
pub mod sentry;
pub mod text;
pub mod utils;
