//! The decisions of a code-execution sandbox server, verified.

pub mod channel;
pub mod command;
pub mod config;
pub mod crypto;
pub mod environ;
pub mod handlers;
pub mod json;
pub mod lifecycle;
pub mod middleware;
pub mod models;
pub mod pending;
pub mod pool;
pub mod protocol;
pub mod queue;
pub mod runners;
pub mod sandbox_seccomp;
pub mod seccomp_redbear;
pub mod services;
pub mod session;
pub mod setup;
pub mod text;
