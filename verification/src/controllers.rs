//! What the handlers of the user endpoints take, decide and answer.

pub mod user;
pub mod users;
