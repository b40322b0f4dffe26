pub mod api;
pub mod config;
pub mod error;
pub mod models;
pub mod services;
pub mod store;
pub mod text;
pub mod web;

pub use config::Config;
