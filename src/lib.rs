//! Application core of a desktop user-management shell: the user domain
//! model, the repository port with an in-memory adapter and the row codec of
//! the SQLite adapter, the domain service, the command/query handlers and an
//! in-process event bus.
pub mod application;
pub mod config;
pub mod dto;
pub mod error;
pub mod event_bus;
pub mod events;
pub mod json;
pub mod laws;
pub mod logging;
pub mod meminfo;
pub mod mvvm;
pub mod notification;
pub mod plugins;
pub mod repository;
pub mod result;
pub mod service;
pub mod storage;
pub mod telemetry;
pub mod text;
pub mod timestamp;
pub mod user;
pub mod user_feature;
