pub mod app;
pub mod applicators;
pub mod confirm_modal;
pub mod date;
pub mod db;
pub mod forms;
pub mod helpers;
pub mod keys;
pub mod list_state;
pub mod models;
pub mod record_text;
pub mod modes;
pub mod text;
pub mod validators;
