pub mod settings;

pub use settings::AppConfig;
