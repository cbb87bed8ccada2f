//! What the server prepares before it takes requests.

pub mod dependencies;
pub mod env;
