//! Configuration: the schema and its defaults, and where the file is looked for.

pub mod location;
pub mod schema;

pub use schema::{
    Aria2Config, Categories, Config, GeneralConfig, HooksConfig, IntegrationConfig, NotificationsConfig,
    PostprocessConfig, SchedulerConfig, UiConfig,
};
