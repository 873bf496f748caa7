//! The service's configuration: how it is read from the environment's
//! variables, and when it is sound.

pub mod cors;
pub mod settings;

pub use cors::{create_cors_config, CorsPlan, HttpMethod};
pub use settings::{
    get_settings, ApiSettings, CookieSettings, CorsSettings, DatabaseSettings, Environment,
    RedisSettings, Settings, SettingsError,
};
