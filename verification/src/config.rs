//! Service configuration, built from the values of its environment variables.

pub mod kafka;
pub mod posthog;
pub mod server;

pub use self::server::ConfigError;
