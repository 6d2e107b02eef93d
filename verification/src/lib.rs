pub mod clash_api;
pub mod config;
pub mod event_loop;
pub mod menu;
pub mod models;
pub mod ordered;
pub mod reconcile;
pub mod text;
pub mod tray;
