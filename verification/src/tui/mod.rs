pub mod app;
pub mod component;
pub mod models;
pub mod table_state;
pub mod ui;
