use vstd::prelude::*;

verus! {

/// Settings of the application, read from a TOML file or defaulted.
pub struct AppConfig {
    pub app: AppSettings,
    pub database: DatabaseSettings,
    pub window: WindowSettings,
    pub logging: LoggingSettings,
}

pub struct AppSettings {
    pub name: String,
    pub version: String,
}

pub struct DatabaseSettings {
    pub path: String,
    pub create_sample_data: Option<bool>,
}

pub struct WindowSettings {
    pub title: String,
    pub width: Option<u32>,
    pub height: Option<u32>,
}

pub struct LoggingSettings {
    pub level: String,
    pub file: String,
    pub append: Option<bool>,
}

impl Default for AppConfig {
    /// The settings used when no file is present.
    fn default() -> (r: AppConfig)
        ensures
            r.app.name@ == "Rust WebUI Application"@,
            r.app.version@ == "1.0.0"@,
            r.database.path@ == "app.db"@,
            r.database.create_sample_data == Some(true),
            r.window.title@ == "Rust WebUI Application"@,
            r.window.width == Some(1200u32),
            r.window.height == Some(800u32),
            r.logging.level@ == "info"@,
            r.logging.file@ == "application.log"@,
            r.logging.append == Some(true),
    {
        AppConfig {
            app: AppSettings {
                name: String::from_str("Rust WebUI Application"),
                version: String::from_str("1.0.0"),
            },
            database: DatabaseSettings { path: String::from_str("app.db"), create_sample_data: Some(true) },
            window: WindowSettings {
                title: String::from_str("Rust WebUI Application"),
                width: Some(1200),
                height: Some(800),
            },
            logging: LoggingSettings {
                level: String::from_str("info"),
                file: String::from_str("application.log"),
                append: Some(true),
            },
        }
    }
}

} // verus!
